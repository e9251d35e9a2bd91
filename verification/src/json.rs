use vstd::prelude::*;
use crate::digits::push_dec;
use crate::digits::spec_dec_digits;
use crate::transport::CommandEnvelope;
use rand::distr::SampleString;
use vstd::string::StringExecFns;

verus! {

/// One per-device record of a status message: the device hash and its
/// on/off state.
#[derive(Debug, Clone)]
pub struct StatusRecord {
    pub hash: String,
    pub on: bool,
}

/// One per-device record of a sync (configuration) message: a switch
/// with its hash, its owning device identity and its main trait state.
#[derive(Debug, Clone)]
pub struct SyncRecord {
    pub hash: String,
    pub mac: String,
    pub is_main: bool,
}

/// An outbound message, as plain values; the transport layer renders it
/// into the wire schema.
#[derive(Debug, Clone)]
pub enum OutMessage {
    /// Per-device state records; a relay command's reply echoes the
    /// initiating envelope's control source and request id.
    Status { control_source: Option<String>, reqid: String, records: Vec<StatusRecord> },
    /// The full relay configuration, for a resync.
    Sync { reqid: String, records: Vec<SyncRecord> },
    /// A keepalive with an empty device list.
    KeepAlive { reqid: String },
}

/// Conversion requests towards the message builder.
#[derive(Debug, Clone)]
pub enum JsonIn {
    StatusConvert { json_init: CommandEnvelope, pin: Vec<(bool, String)> },
    SyncConvert { status: Vec<bool>, mac_id: String },
    KeepAlive,
}

/// The outbound message builder.
#[derive(Debug)]
pub struct JsonDriver {}

/// The device hash for a relay index: `io-<mac>-<index>`.
pub open spec fn spec_hash(mac: Seq<char>, index: int) -> Seq<char> {
    seq!['i', 'o', '-'] + mac + seq!['-'] + spec_dec_digits(index)
}

/// Builds the device hash `io-<mac>-<index>`.
pub fn make_hash(mac: &String, index: u64) -> (r: String)
    ensures
        r@ == spec_hash(mac@, index as int),
{
    let mut s = String::from_str("io-");
    proof {
        reveal_strlit("io-");
        assert(s@ =~= seq!['i', 'o', '-']);
    }
    s.append(mac.as_str());
    s.append("-");
    proof {
        reveal_strlit("-");
        assert(("-")@ =~= seq!['-']);
    }
    push_dec(&mut s, index);
    proof {
        assert(s@ =~= spec_hash(mac@, index as int));
    }
    s
}

impl JsonDriver {
    /// Relies on rand's `Alphanumeric::sample_string`: a fresh random
    /// request id of exactly 12 ASCII alphanumeric characters.  Nothing
    /// is assumed of which characters come out.
    #[verifier::external_body]
    pub fn get_reqid(&mut self) -> (r: String)
        ensures
            r@.len() == 12,
    {
        rand::distr::Alphanumeric.sample_string(&mut rand::rng(), 12)
    }

    /// Builds the outbound messages for one conversion request: a
    /// status reply echoes the initiating envelope and lists the given
    /// records as they are; a sync request yields the configuration
    /// message and a full status message, each under a fresh request
    /// id; a keepalive carries a fresh request id and nothing else.
    pub fn convert(&mut self, type_res: JsonIn) -> (r: (OutMessage, Option<OutMessage>))
        ensures
            (type_res matches JsonIn::StatusConvert { json_init, pin } ==> {
                &&& r.1 is None
                &&& (r.0 matches OutMessage::Status { control_source, reqid, records } && {
                    &&& control_source == json_init.control_source
                    &&& reqid == json_init.reqid
                    &&& records@.len() == pin@.len()
                    &&& forall|i: int|
                        0 <= i < pin@.len() ==> (#[trigger] records@[i]).on == pin@[i].0
                            && records@[i].hash == pin@[i].1
                })
            }),
            (type_res matches JsonIn::SyncConvert { status, mac_id } ==> {
                &&& (r.0 matches OutMessage::Sync { reqid, records } && {
                    &&& reqid@.len() == 12
                    &&& records@.len() == status@.len()
                    &&& forall|i: int|
                        0 <= i < status@.len() ==> (#[trigger] records@[i]).hash@ == spec_hash(
                            mac_id@,
                            i,
                        ) && records@[i].mac == mac_id && records@[i].is_main == status@[i]
                })
                &&& (r.1 matches Some(second) && (second matches OutMessage::Status {
                    control_source,
                    reqid,
                    records,
                } && {
                    &&& control_source is None
                    &&& reqid@.len() == 12
                    &&& records@.len() == status@.len()
                    &&& forall|i: int|
                        0 <= i < status@.len() ==> (#[trigger] records@[i]).hash@ == spec_hash(
                            mac_id@,
                            i,
                        ) && records@[i].on == status@[i]
                }))
            }),
            (type_res matches JsonIn::KeepAlive ==> {
                &&& r.1 is None
                &&& (r.0 matches OutMessage::KeepAlive { reqid } && reqid@.len() == 12)
            }),
    {
        match type_res {
            JsonIn::StatusConvert { json_init, pin } => {
                let mut records: Vec<StatusRecord> = Vec::new();
                let mut i: usize = 0;
                while i < pin.len()
                    invariant
                        0 <= i <= pin@.len(),
                        records@.len() == i,
                        forall|j: int|
                            0 <= j < i ==> (#[trigger] records@[j]).on == pin@[j].0
                                && records@[j].hash == pin@[j].1,
                    decreases pin@.len() - i,
                {
                    let (on, hash) = (pin[i].0, pin[i].1.clone());
                    records.push(StatusRecord { hash, on });
                    i += 1;
                }
                (
                    OutMessage::Status {
                        control_source: json_init.control_source,
                        reqid: json_init.reqid,
                        records,
                    },
                    None,
                )
            },
            JsonIn::SyncConvert { status, mac_id } => {
                let mut config_records: Vec<SyncRecord> = Vec::new();
                let mut status_records: Vec<StatusRecord> = Vec::new();
                let mut i: usize = 0;
                while i < status.len()
                    invariant
                        0 <= i <= status@.len(),
                        config_records@.len() == i,
                        status_records@.len() == i,
                        forall|j: int|
                            0 <= j < i ==> (#[trigger] config_records@[j]).hash@ == spec_hash(
                                mac_id@,
                                j,
                            ) && config_records@[j].mac == mac_id && config_records@[j].is_main
                                == status@[j],
                        forall|j: int|
                            0 <= j < i ==> (#[trigger] status_records@[j]).hash@ == spec_hash(
                                mac_id@,
                                j,
                            ) && status_records@[j].on == status@[j],
                    decreases status@.len() - i,
                {
                    let hash = make_hash(&mac_id, i as u64);
                    config_records.push(
                        SyncRecord { hash: hash.clone(), mac: mac_id.clone(), is_main: status[i] },
                    );
                    status_records.push(StatusRecord { hash, on: status[i] });
                    i += 1;
                }
                let status_reqid = self.get_reqid();
                let config_reqid = self.get_reqid();
                (
                    OutMessage::Sync { reqid: config_reqid, records: config_records },
                    Some(
                        OutMessage::Status {
                            control_source: None,
                            reqid: status_reqid,
                            records: status_records,
                        },
                    ),
                )
            },
            JsonIn::KeepAlive => {
                let reqid = self.get_reqid();
                (OutMessage::KeepAlive { reqid }, None)
            },
        }
    }
}

} // verus!

use vstd::prelude::*;

verus! {

/// Error kinds shared by every component of the service.
///
/// Hardware, transport and file errors travel through the same result
/// channel as successes.  `RepeatErr` is not a fault: it is the expected
/// rejection of a duplicate blink session used for flow control.
#[derive(Debug, PartialEq, Eq, Structural, Clone)]
pub enum OtaErr {
    SetValueErr,
    SelectPinErr,
    SetDirectionErr,
    GetValueErr,
    HttpErr,
    MqttErr,
    TimoutErr,
    RepeatErr,
    OpenFileErr,
    ReadFileErr,
    ConvertTempErr,
}

} // verus!

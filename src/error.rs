use vstd::prelude::*;

use crate::common::BusName;

verus! {

/// Every failure that a bus operation reports to its caller.
#[derive(Debug, PartialEq, Eq)]
pub enum Error {
    TargetAddressNotFound,
    AddressInUse,
    EventNotFound,
    EventAlreadyRegistred,
    InvalidBusName,
    AddressRecvFailed,
    MessageCreationFailed,
    MessageSendFailed(BusName),
    BusClosed,
    BusResponseFailed,
    BusSendFailed,
    MessageUnpackFailed,
}

} // verus!

//! TransferData, service `0x36`: fetching the ECU's log.

use crate::client::UdsClient;
use crate::error::{DiagError, DiagErrorView};
use crate::socket_can::CanSocketTx;
use vstd::prelude::*;

verus! {

impl<T: CanSocketTx> UdsClient<T> {
    /// Fetching the log is not implemented: the call sends nothing and
    /// reports so, naming the service.
    pub fn get_ecu_log(&mut self) -> (r: Result<(), DiagError>)
        ensures
            final(self).spec_id() == old(self).spec_id(),
            final(self).handed() == old(self).handed(),
            r is Err,
            r->Err_0@ == DiagErrorView::NotImplemented("TransferData"@),
    {
        Err(DiagError::NotImplemented("TransferData".to_owned()))
    }
}

} // verus!

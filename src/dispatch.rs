//! The dispatcher's protocol around the live wallet: a request that carries a
//! handle runs against the object that the handle names, borrowed; only the
//! destructor takes the object out of the table, after its operation.
use vstd::prelude::*;
use crate::error::{BdkJniError, ErrorKind};
use crate::registry::Registry;
use crate::request::BdkRequest;

verus! {

/// Runs one request that carries a handle: resolves the handle, runs `op` on
/// the object it names, borrowed, and, for the destructor alone, then takes the
/// object out of the table and hands it back to be dropped, whatever `op`
/// returned. A request without a handle is refused as unsupported, a handle
/// that names no live object of the table's kind as invalid; then `op` is not
/// run and the table is unchanged.
pub fn dispatch_wallet_call<T, V, F: FnOnce(&T, BdkRequest) -> Result<V, BdkJniError>>(
    reg: &mut Registry<T>,
    req: BdkRequest,
    op: F,
) -> (r: (Result<V, BdkJniError>, Option<T>))
    requires
        old(reg).wf(),
        forall|w: &T| #[trigger] op.requires((w, req)),
    ensures
        final(reg).wf(),
        final(reg).kind_spec() == old(reg).kind_spec(),
        match req.handle_spec() {
            None => {
                &&& (r.0 matches Err(e) && e.kind_spec() == ErrorKind::UnsupportedOperation)
                &&& r.1 is None
                &&& *final(reg) == *old(reg)
            },
            Some(h) => match old(reg).decode(h) {
                None => {
                    &&& (r.0 matches Err(e) && e is InvalidHandle)
                    &&& r.1 is None
                    &&& *final(reg) == *old(reg)
                },
                Some(w) => {
                    &&& op.ensures((&w, req), r.0)
                    &&& req is Destructor ==> {
                        &&& r.1 == Some(w)
                        &&& final(reg).live() == old(reg).live().remove(h.address())
                        &&& final(reg).retired() == old(reg).retired().insert(h.address())
                    }
                    &&& !(req is Destructor) ==> r.1 is None && *final(reg) == *old(reg)
                },
            },
        },
{
    let destroy = req.is_destructor();
    let h = match req.handle() {
        Some(h) => *h,
        None => {
            return (
                Err(BdkJniError::Unsupported(String::from_str("request carries no wallet handle"))),
                None,
            );
        },
    };
    let result = match reg.resolve(&h) {
        Some(w) => op(w, req),
        None => {
            return (Err(BdkJniError::InvalidHandle), None);
        },
    };
    let released = if destroy {
        reg.release(&h)
    } else {
        None
    };
    (result, released)
}

} // verus!

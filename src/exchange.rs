use vstd::prelude::*;

use crate::forward::{
    declares_gzip, exchange_error, exchange_view, gunzip_bytes, raw_view, record_exchange, utf8_lossy,
    ForwardError, OutboundRequest, UpstreamReply,
};
use crate::history::{appended, HistoryStore};
use crate::hub::Hub;

verus! {

/// Completes a forward once the upstream reply is fully received: the
/// record goes into the history first and is then published to the live
/// subscribers; the reply comes back untouched for the original caller.
/// When the record cannot be built, nothing is stored or published.
pub fn finish_exchange(
    store: &mut HistoryStore,
    hub: &Hub,
    out: &OutboundRequest,
    reply: UpstreamReply,
    elapsed_ms: u128,
) -> (r: Result<UpstreamReply, ForwardError>)
    requires
        old(store).wf(),
    ensures
        final(store).wf(),
        match r {
            Ok(x) => {
                &&& x == reply
                &&& exchange_error(*out, reply) is None
                &&& final(store)@ == appended(old(store)@, exchange_view(*out, reply, elapsed_ms))
            },
            Err(e) => exchange_error(*out, reply) == Some(e) && final(store)@ == old(store)@,
        },
        r matches Ok(x) ==> x.body@ == reply.body@ && (declares_gzip(raw_view(reply.headers@))
            ==> final(store)@.last().response_body == utf8_lossy(gunzip_bytes(reply.body@).unwrap())),
{
    match record_exchange(out, &reply, elapsed_ms) {
        Err(e) => Err(e),
        Ok(entry) => {
            let shown = entry.duplicate();
            store.append(shown);
            let _ = hub.publish(entry);
            Ok(reply)
        },
    }
}

} // verus!

//! The transport bridge: a duplex pass-through relay between the UI surface's
//! message channel and the single backend connection. The bridge frames
//! nothing and parses nothing; each relay hands every message on unmodified
//! and in arrival order, which the ghost histories record.

use vstd::prelude::*;
use crate::digits::dec_rep;
use crate::digits::format_decimal;

verus! {

/// The payloads of a run of messages, oldest first.
pub open spec fn payloads(ms: Seq<Vec<u8>>) -> Seq<Seq<u8>> {
    ms.map_values(|m: Vec<u8>| m@)
}

/// The duplex bridge. Its two ghost histories record what has crossed it:
/// what was written to the backend connection and what was handed to the UI
/// surface, each oldest first.
pub struct TransportBridge {
    /// Payloads written to the backend connection so far.
    pub outbound_sent: Ghost<Seq<Seq<u8>>>,
    /// Payloads handed to the UI surface so far.
    pub inbound_delivered: Ghost<Seq<Seq<u8>>>,
}

impl TransportBridge {
    /// A fresh bridge: nothing has crossed it yet.
    pub fn new() -> (b: TransportBridge)
        ensures
            b.outbound_sent@ == Seq::<Seq<u8>>::empty(),
            b.inbound_delivered@ == Seq::<Seq<u8>>::empty(),
    {
        TransportBridge {
            outbound_sent: Ghost(Seq::empty()),
            inbound_delivered: Ghost(Seq::empty()),
        }
    }

    /// Relays one message from the UI surface to the backend connection: the
    /// bytes put on the wire are exactly the message, appended to the
    /// outbound history; the inbound side is untouched.
    pub fn relay_outbound(&mut self, msg: Vec<u8>) -> (wire: Vec<u8>)
        ensures
            wire@ == msg@,
            final(self).outbound_sent@ == old(self).outbound_sent@.push(msg@),
            final(self).inbound_delivered@ == old(self).inbound_delivered@,
    {
        self.outbound_sent = Ghost(self.outbound_sent@.push(msg@));
        msg
    }

    /// Relays one message arriving on the backend connection to the UI
    /// surface: what the surface receives is exactly the message, appended to
    /// the inbound history; the outbound side is untouched.
    pub fn relay_inbound(&mut self, msg: Vec<u8>) -> (delivered: Vec<u8>)
        ensures
            delivered@ == msg@,
            final(self).inbound_delivered@ == old(self).inbound_delivered@.push(msg@),
            final(self).outbound_sent@ == old(self).outbound_sent@,
    {
        self.inbound_delivered = Ghost(self.inbound_delivered@.push(msg@));
        msg
    }

    /// Relays a whole run of UI-side messages: the wire sees them all,
    /// unmodified and in the order they were emitted.
    pub fn relay_outbound_all(&mut self, msgs: Vec<Vec<u8>>) -> (wires: Vec<Vec<u8>>)
        ensures
            wires@.len() == msgs@.len(),
            forall|i: int| 0 <= i < msgs@.len() ==> wires@[i]@ == msgs@[i]@,
            final(self).outbound_sent@ == old(self).outbound_sent@ + payloads(msgs@),
            final(self).inbound_delivered@ == old(self).inbound_delivered@,
    {
        let ghost sent0 = self.outbound_sent@;
        let ghost delivered0 = self.inbound_delivered@;
        let ghost all = msgs@;
        let mut rest = msgs;
        let mut wires: Vec<Vec<u8>> = Vec::new();
        proof {
            assert(rest@ =~= all.skip(0));
            assert(payloads(all.take(0)) =~= Seq::<Seq<u8>>::empty());
            assert(sent0 + payloads(all.take(0)) =~= sent0);
        }
        while rest.len() > 0
            invariant
                wires@.len() <= all.len(),
                rest@ == all.skip(wires@.len() as int),
                forall|i: int| 0 <= i < wires@.len() ==> wires@[i]@ == all[i]@,
                self.outbound_sent@ == sent0 + payloads(all.take(wires@.len() as int)),
                self.inbound_delivered@ == delivered0,
            decreases rest@.len(),
        {
            let ghost k = wires@.len() as int;
            let m = rest.remove(0);
            let wire = self.relay_outbound(m);
            wires.push(wire);
            proof {
                assert(all.skip(k).remove(0) =~= all.skip(k + 1));
                assert(payloads(all.take(k + 1)) =~= payloads(all.take(k)).push(all[k]@));
                assert(sent0 + payloads(all.take(k + 1)) =~= (sent0 + payloads(all.take(k))).push(
                    all[k]@,
                ));
            }
        }
        proof {
            assert(wires@.len() == all.len());
            assert(all.take(all.len() as int) =~= all);
        }
        wires
    }

    /// Relays a whole run of backend-side messages: the UI surface receives
    /// them all, unmodified and in the order they arrived.
    pub fn relay_inbound_all(&mut self, msgs: Vec<Vec<u8>>) -> (delivered: Vec<Vec<u8>>)
        ensures
            delivered@.len() == msgs@.len(),
            forall|i: int| 0 <= i < msgs@.len() ==> delivered@[i]@ == msgs@[i]@,
            final(self).inbound_delivered@ == old(self).inbound_delivered@ + payloads(msgs@),
            final(self).outbound_sent@ == old(self).outbound_sent@,
    {
        let ghost sent0 = self.outbound_sent@;
        let ghost delivered0 = self.inbound_delivered@;
        let ghost all = msgs@;
        let mut rest = msgs;
        let mut out: Vec<Vec<u8>> = Vec::new();
        proof {
            assert(rest@ =~= all.skip(0));
            assert(payloads(all.take(0)) =~= Seq::<Seq<u8>>::empty());
            assert(delivered0 + payloads(all.take(0)) =~= delivered0);
        }
        while rest.len() > 0
            invariant
                out@.len() <= all.len(),
                rest@ == all.skip(out@.len() as int),
                forall|i: int| 0 <= i < out@.len() ==> out@[i]@ == all[i]@,
                self.inbound_delivered@ == delivered0 + payloads(all.take(out@.len() as int)),
                self.outbound_sent@ == sent0,
            decreases rest@.len(),
        {
            let ghost k = out@.len() as int;
            let m = rest.remove(0);
            let d = self.relay_inbound(m);
            out.push(d);
            proof {
                assert(all.skip(k).remove(0) =~= all.skip(k + 1));
                assert(payloads(all.take(k + 1)) =~= payloads(all.take(k)).push(all[k]@));
                assert(delivered0 + payloads(all.take(k + 1)) =~= (delivered0 + payloads(
                    all.take(k),
                )).push(all[k]@));
            }
        }
        proof {
            assert(out@.len() == all.len());
            assert(all.take(all.len() as int) =~= all);
        }
        out
    }
}

/// The backend endpoint the bridge connects to: the fixed local host, with
/// the port in decimal.
pub fn backend_endpoint(port: u16) -> (r: String)
    ensures
        r@ == "localhost:"@ + dec_rep(port as nat),
{
    let digits = format_decimal(port as u32);
    String::from_str("localhost:").concat(digits.as_str())
}

} // verus!

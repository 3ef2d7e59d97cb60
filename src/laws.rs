use vstd::prelude::*;

use crate::transfer::{chunk_spec, BUFFER_SIZE};

verus! {

/// Sum of a sequence of byte counts.
pub open spec fn sum(s: Seq<nat>) -> nat
    decreases s.len(),
{
    if s.len() == 0 {
        0
    } else {
        s[0] + sum(s.drop_first())
    }
}

/// The chunks a sender emits from `sent` onwards when every send is written
/// in full.
pub open spec fn sender_chunks(total: nat, sent: nat) -> Seq<nat>
    decreases total - sent,
{
    if sent >= total {
        Seq::empty()
    } else {
        let c = chunk_spec(total, sent);
        seq![c] + sender_chunks(total, sent + c)
    }
}

/// Count a receiver holds after the datagrams `ds` arrive in turn, starting
/// from `received`: each one is counted while the target is not yet reached.
pub open spec fn received_after(total: nat, received: nat, ds: Seq<nat>) -> nat
    decreases ds.len(),
{
    if ds.len() == 0 || received >= total {
        received
    } else {
        received_after(total, received + ds[0], ds.drop_first())
    }
}

/// Every datagram fits the receive buffer.
pub open spec fn fits_buffer(ds: Seq<nat>) -> bool {
    forall|i: int| 0 <= i < ds.len() ==> #[trigger] ds[i] <= BUFFER_SIZE
}

proof fn lemma_sender_chunks_from(total: nat, sent: nat)
    requires
        sent <= total,
    ensures
        sum(sender_chunks(total, sent)) == total - sent,
        sender_chunks(total, sent).len() == (total - sent + 1023) / 1024,
    decreases total - sent,
{
    if sent < total {
        let c = chunk_spec(total, sent);
        lemma_sender_chunks_from(total, sent + c);
        let s = seq![c] + sender_chunks(total, sent + c);
        assert(s.drop_first() =~= sender_chunks(total, sent + c));
        assert((total - sent + 1023) / 1024 == (total - (sent + c) + 1023) / 1024 + 1);
    }
}

/// The chunks a sender emits sum to the target and there are
/// `ceil(total / 1024)` of them; none at all for an empty transfer.
pub proof fn lemma_sender_exact(total: nat)
    ensures
        sum(sender_chunks(total, 0)) == total,
        sender_chunks(total, 0).len() == (total + 1023) / 1024,
        total == 0 ==> sender_chunks(total, 0).len() == 0,
{
    lemma_sender_chunks_from(total, 0);
}

proof fn lemma_received_bounds_from(total: nat, received: nat, ds: Seq<nat>)
    requires
        fits_buffer(ds),
        received < total + BUFFER_SIZE,
    ensures
        received_after(total, received, ds) >= received,
        received_after(total, received, ds) < total + BUFFER_SIZE,
        received + sum(ds) >= total ==> received_after(total, received, ds) >= total,
    decreases ds.len(),
{
    if ds.len() > 0 && received < total {
        assert(ds[0] <= BUFFER_SIZE);
        let rest = ds.drop_first();
        assert forall|i: int| 0 <= i < rest.len() implies #[trigger] rest[i] <= BUFFER_SIZE by {
            assert(rest[i] == ds[i + 1]);
        }
        lemma_received_bounds_from(total, received + ds[0], rest);
    }
}

proof fn lemma_sender_chunks_fit(total: nat, sent: nat)
    ensures
        fits_buffer(sender_chunks(total, sent)),
    decreases total - sent,
{
    if sent < total {
        let c = chunk_spec(total, sent);
        lemma_sender_chunks_fit(total, sent + c);
        let s = seq![c] + sender_chunks(total, sent + c);
        assert forall|i: int| 0 <= i < s.len() implies #[trigger] s[i] <= BUFFER_SIZE by {
            if i > 0 {
                assert(s[i] == sender_chunks(total, sent + c)[i - 1]);
            }
        }
    }
}

proof fn lemma_receive_sender_chunks(total: nat, sent: nat)
    requires
        sent <= total,
    ensures
        received_after(total, sent, sender_chunks(total, sent)) == total,
    decreases total - sent,
{
    if sent < total {
        let c = chunk_spec(total, sent);
        lemma_receive_sender_chunks(total, sent + c);
        let s = seq![c] + sender_chunks(total, sent + c);
        assert(s.drop_first() =~= sender_chunks(total, sent + c));
    }
}

/// Once the datagrams that reach a receiver add up to its
/// target, it stops with a count of at least the target and at most
/// `total + 1023`; fed the chunks of a sender with the same target, none of
/// them lost, it stops at the target exactly.
pub proof fn lemma_completion(total: nat, ds: Seq<nat>)
    requires
        fits_buffer(ds),
    ensures
        sum(ds) >= total ==> total <= received_after(total, 0, ds),
        received_after(total, 0, ds) <= total + BUFFER_SIZE - 1,
        fits_buffer(sender_chunks(total, 0)),
        received_after(total, 0, sender_chunks(total, 0)) == total,
{
    lemma_received_bounds_from(total, 0, ds);
    lemma_sender_chunks_fit(total, 0);
    lemma_receive_sender_chunks(total, 0);
}

} // verus!

use crate::backoff::{base_pow, delay_after};
use crate::config::ServerConfig;
use crate::frame::payload_of;
use crate::listener::{ActionView, Event, ListenError, Listener, Phase};
use vstd::arithmetic::power::pow;
use vstd::arithmetic::power2::{
    lemma2_to64_rest, lemma_pow2, lemma_pow2_strictly_increases, lemma_pow2_unfold, pow2,
};
use vstd::prelude::*;

verus! {

/// Whether the listener, from `s`, accepts each event of `evs` in turn.
pub open spec fn valid_run(s: Listener, evs: Seq<Event>) -> bool
    decreases evs.len(),
{
    evs.len() == 0 || (s.accepts(evs[0]) && valid_run(s.transition(evs[0]).0, evs.drop_first()))
}

/// The state that the listener reaches from `s` after the events `evs`.
pub open spec fn state_after(s: Listener, evs: Seq<Event>) -> Listener
    decreases evs.len(),
{
    if evs.len() == 0 {
        s
    } else {
        state_after(s.transition(evs[0]).0, evs.drop_first())
    }
}

/// The actions that the listener asks for, from `s`, on the events `evs`.
pub open spec fn actions_of(s: Listener, evs: Seq<Event>) -> Seq<ActionView>
    decreases evs.len(),
{
    if evs.len() == 0 {
        Seq::empty()
    } else {
        seq![s.transition(evs[0]).1] + actions_of(s.transition(evs[0]).0, evs.drop_first())
    }
}

/// The number of connection attempts among `acts`.
pub open spec fn connects(acts: Seq<ActionView>) -> nat
    decreases acts.len(),
{
    if acts.len() == 0 {
        0
    } else {
        (if acts[0] is Connect { 1nat } else { 0nat }) + connects(acts.drop_first())
    }
}

/// The configurations handed to the handler by `acts`, in order.
pub open spec fn deliveries(acts: Seq<ActionView>) -> Seq<ServerConfig>
    decreases acts.len(),
{
    if acts.len() == 0 {
        Seq::empty()
    } else {
        match acts[0] {
            ActionView::Deliver(c) => seq![c] + deliveries(acts.drop_first()),
            _ => deliveries(acts.drop_first()),
        }
    }
}

/// The events of a connection on which each chunk of `chunks` is followed
/// by the decoding of its payload into the configuration of `configs` at
/// the same place.
pub open spec fn decoded_stream(chunks: Seq<Vec<u8>>, configs: Seq<ServerConfig>) -> Seq<Event>
    decreases chunks.len(),
{
    if chunks.len() == 0 || configs.len() == 0 {
        Seq::empty()
    } else {
        seq![Event::Chunk(chunks[0]), Event::Decoded(configs[0])] + decoded_stream(
            chunks.drop_first(),
            configs.drop_first(),
        )
    }
}

pub proof fn lemma_run_concat(s: Listener, a: Seq<Event>, b: Seq<Event>)
    ensures
        state_after(s, a + b) == state_after(state_after(s, a), b),
        actions_of(s, a + b) == actions_of(s, a) + actions_of(state_after(s, a), b),
        valid_run(s, a + b) <==> valid_run(s, a) && valid_run(state_after(s, a), b),
    decreases a.len(),
{
    if a.len() == 0 {
        assert(a + b =~= b);
    } else {
        let t = s.transition(a[0]).0;
        assert((a + b).drop_first() =~= a.drop_first() + b);
        lemma_run_concat(t, a.drop_first(), b);
        assert(actions_of(s, a + b) =~= actions_of(s, a) + actions_of(state_after(s, a), b));
    }
}

pub proof fn lemma_deliveries_concat(a: Seq<ActionView>, b: Seq<ActionView>)
    ensures
        deliveries(a + b) == deliveries(a) + deliveries(b),
    decreases a.len(),
{
    if a.len() == 0 {
        assert(a + b =~= b);
        assert(deliveries(a) + deliveries(b) =~= deliveries(b));
    } else {
        assert((a + b).drop_first() =~= a.drop_first() + b);
        lemma_deliveries_concat(a.drop_first(), b);
        match a[0] {
            ActionView::Deliver(c) => {
                assert(deliveries(a + b) =~= deliveries(a) + deliveries(b));
            },
            _ => {},
        }
    }
}

proof fn lemma_run_keeps_bound(s: Listener, evs: Seq<Event>)
    requires
        s.wf(),
        s.max_retries >= 1,
        s.attempt <= s.max_retries,
        valid_run(s, evs),
    ensures
        state_after(s, evs).wf(),
        state_after(s, evs).max_retries == s.max_retries,
        state_after(s, evs).attempt <= s.max_retries,
        s.attempt + connects(actions_of(s, evs)) == state_after(s, evs).attempt,
    decreases evs.len(),
{
    if evs.len() > 0 {
        let t = s.transition(evs[0]).0;
        lemma_run_keeps_bound(t, evs.drop_first());
        let acts = actions_of(s, evs);
        assert(acts.drop_first() =~= actions_of(t, evs.drop_first()));
    }
}

/// Backoff growth: a failed attempt `n` (counting from 1), with attempts
/// left, is followed by a wait of `BASE_DELAY^n` seconds and then by
/// attempt `n + 1`; each wait doubles the one before.
pub proof fn backoff_growth(s: Listener)
    requires
        s.wf(),
        s.phase == Phase::Connecting,
        1 <= s.attempt < s.max_retries,
        s.attempt < 64,
    ensures
        s.transition(Event::ConnectFailed).1 == ActionView::Sleep(base_pow(s.attempt as nat) as u64),
        s.transition(Event::ConnectFailed).0.transition(Event::Slept).1 == ActionView::Connect(
            (s.attempt + 1) as u32,
        ),
        s.attempt + 1 < 64 ==> base_pow((s.attempt + 1) as nat) == 2 * base_pow(s.attempt as nat),
{
    lemma_pow_fits(s.attempt as nat);
}

proof fn lemma_pow_fits(n: nat)
    requires
        n < 64,
    ensures
        base_pow(n) <= u64::MAX,
        delay_after(n) == base_pow(n),
{
    lemma_base_pow_is_pow2(n);
    lemma2_to64_rest();
    if n < 64 {
        lemma_pow2_strictly_increases(n, 64);
    }
}

proof fn lemma_base_pow_is_pow2(n: nat)
    ensures
        base_pow(n) == pow2(n),
    decreases n,
{
    if n > 0 {
        lemma_base_pow_is_pow2((n - 1) as nat);
        lemma_pow2_unfold(n);
    } else {
        lemma_pow2(0);
        reveal(pow);
    }
}

/// Retry bound: with `max_retries = k`, a session makes at most `k`
/// connection attempts, whatever the events.
pub proof fn retry_bound(k: u32, retry_on_stream_error: bool, evs: Seq<Event>)
    requires
        k >= 1,
        valid_run(Listener::new_spec(k, retry_on_stream_error), evs),
    ensures
        connects(actions_of(Listener::new_spec(k, retry_on_stream_error), evs)) <= k,
{
    lemma_run_keeps_bound(Listener::new_spec(k, retry_on_stream_error), evs);
}

/// Decode isolation: a payload that fails to decode leaves the listener
/// where it was, so the rest of the stream goes on as if it never came.
pub proof fn decode_isolation(s: Listener, chunk: Vec<u8>, rest: Seq<Event>)
    requires
        s.phase == Phase::Streaming,
        payload_of(chunk@) is Some,
    ensures
        ({
            let evs = seq![Event::Chunk(chunk), Event::DecodeFailed] + rest;
            &&& valid_run(s, evs) == valid_run(s, rest)
            &&& state_after(s, evs) == state_after(s, rest)
            &&& actions_of(s, evs) == seq![
                ActionView::Decode(payload_of(chunk@)->Some_0),
                ActionView::Read,
            ] + actions_of(s, rest)
        }),
{
    let head = seq![Event::Chunk(chunk), Event::DecodeFailed];
    lemma_run_concat(s, head, rest);
    assert(head.drop_first().drop_first() =~= Seq::<Event>::empty());
    reveal_with_fuel(state_after, 3);
    reveal_with_fuel(actions_of, 3);
    reveal_with_fuel(valid_run, 3);
    assert(state_after(s, head) == s);
    assert(valid_run(s, head));
    assert(actions_of(s, head) =~= seq![
        ActionView::Decode(payload_of(chunk@)->Some_0),
        ActionView::Read,
    ]);
}

/// Order preservation: on one connection, `n` chunks that carry payloads,
/// each decoded in turn, are delivered to the handler as `n` configurations
/// in the same order, and the listener is left streaming.
pub proof fn order_preserved(s: Listener, chunks: Seq<Vec<u8>>, configs: Seq<ServerConfig>)
    requires
        s.phase == Phase::Streaming,
        chunks.len() == configs.len(),
        forall|i: int| 0 <= i < chunks.len() ==> (payload_of(#[trigger] chunks[i]@) is Some),
    ensures
        valid_run(s, decoded_stream(chunks, configs)),
        state_after(s, decoded_stream(chunks, configs)) == s,
        deliveries(actions_of(s, decoded_stream(chunks, configs))) == configs,
    decreases chunks.len(),
{
    if chunks.len() == 0 {
        assert(configs =~= Seq::<ServerConfig>::empty());
    } else {
        let head = seq![Event::Chunk(chunks[0]), Event::Decoded(configs[0])];
        let tail = decoded_stream(chunks.drop_first(), configs.drop_first());
        assert(payload_of(chunks[0]@) is Some);
        order_preserved(s, chunks.drop_first(), configs.drop_first());
        lemma_run_concat(s, head, tail);
        assert(head.drop_first().drop_first() =~= Seq::<Event>::empty());
        reveal_with_fuel(state_after, 3);
        reveal_with_fuel(actions_of, 3);
        reveal_with_fuel(valid_run, 3);
        assert(state_after(s, head) == s);
        assert(valid_run(s, head));
        let acts = actions_of(s, head);
        assert(acts =~= seq![
            ActionView::Decode(payload_of(chunks[0]@)->Some_0),
            ActionView::Deliver(configs[0]),
        ]);
        lemma_deliveries_concat(acts, actions_of(s, tail));
        assert(deliveries(acts) =~= seq![configs[0]]) by {
            reveal_with_fuel(deliveries, 3);
        }
        assert(configs =~= seq![configs[0]] + configs.drop_first());
    }
}

/// Mid-stream failure is final: where stream errors are not retried, a
/// read error on an established stream ends listening with
/// `ListenError::Stream`, and no event, so no connection attempt, follows.
pub proof fn stream_error_is_final(s: Listener, rest: Seq<Event>)
    requires
        s.phase == Phase::Streaming,
        !s.retry_on_stream_error,
        valid_run(s.transition(Event::ReadFailed).0, rest),
    ensures
        s.transition(Event::ReadFailed).1 == ActionView::Finish(Err(ListenError::Stream)),
        s.transition(Event::ReadFailed).0.phase == Phase::Failed,
        rest.len() == 0,
        connects(actions_of(s.transition(Event::ReadFailed).0, rest)) == 0,
{
}

} // verus!

//! The transport boundary, modeled.
//!
//! Both transport variants feed messages to the same session step function:
//! the stream variant runs one serving loop for the process lifetime, the
//! push variant runs one loop per accepted connection, concurrently. The
//! loops share only the read-only registry and configuration; each owns its
//! session state. This module states what that buys: in any interleaving of
//! two connections' messages, each connection receives exactly the replies
//! of its own serving loop run alone, in its own submission order.

use crate::dispatch::ServerConfigV;
use crate::registry::CapabilityV;
use crate::session::IncomingMessageV;
use crate::session::SessionReplyV;
use crate::session::SessionStateV;
use crate::session::spec_run;
use crate::session::spec_step;
use vstd::prelude::*;

verus! {

/// Which of two concurrent connections an event belongs to.
pub type ConnId = bool;

/// The messages of one connection, in arrival order, projected out of an
/// interleaved trace.
pub open spec fn spec_own_msgs(trace: Seq<(ConnId, IncomingMessageV)>, cid: ConnId) -> Seq<
    IncomingMessageV,
>
    decreases trace.len(),
{
    if trace.len() == 0 {
        Seq::<IncomingMessageV>::empty()
    } else if trace[0].0 == cid {
        seq![trace[0].1] + spec_own_msgs(trace.skip(1), cid)
    } else {
        spec_own_msgs(trace.skip(1), cid)
    }
}

/// The replies of one connection, in emission order, projected out of an
/// interleaved reply stream.
pub open spec fn spec_own_replies(out: Seq<(ConnId, SessionReplyV)>, cid: ConnId) -> Seq<
    SessionReplyV,
>
    decreases out.len(),
{
    if out.len() == 0 {
        Seq::<SessionReplyV>::empty()
    } else if out[0].0 == cid {
        seq![out[0].1] + spec_own_replies(out.skip(1), cid)
    } else {
        spec_own_replies(out.skip(1), cid)
    }
}

/// Two connections served over one shared read-only registry and
/// configuration, their messages interleaved arbitrarily: each message is
/// stepped against its own connection's session state, and the reply goes
/// back tagged with that connection.
pub open spec fn spec_run_two(
    caps: Seq<CapabilityV>,
    config: ServerConfigV,
    state_a: SessionStateV,
    state_b: SessionStateV,
    trace: Seq<(ConnId, IncomingMessageV)>,
) -> Seq<(ConnId, SessionReplyV)>
    decreases trace.len(),
{
    if trace.len() == 0 {
        Seq::<(ConnId, SessionReplyV)>::empty()
    } else if !trace[0].0 {
        let stepped = spec_step(caps, config, state_a, trace[0].1);
        seq![(false, stepped.1)] + spec_run_two(caps, config, stepped.0, state_b, trace.skip(1))
    } else {
        let stepped = spec_step(caps, config, state_b, trace[0].1);
        seq![(true, stepped.1)] + spec_run_two(caps, config, state_a, stepped.0, trace.skip(1))
    }
}

/// The pair of session states the two connections end in after the
/// interleaved trace.
pub open spec fn spec_run_two_final(
    caps: Seq<CapabilityV>,
    config: ServerConfigV,
    state_a: SessionStateV,
    state_b: SessionStateV,
    trace: Seq<(ConnId, IncomingMessageV)>,
) -> (SessionStateV, SessionStateV)
    decreases trace.len(),
{
    if trace.len() == 0 {
        (state_a, state_b)
    } else if !trace[0].0 {
        let stepped = spec_step(caps, config, state_a, trace[0].1);
        spec_run_two_final(caps, config, stepped.0, state_b, trace.skip(1))
    } else {
        let stepped = spec_step(caps, config, state_b, trace[0].1);
        spec_run_two_final(caps, config, state_a, stepped.0, trace.skip(1))
    }
}

/// Law: each connection's session state is its own. After any interleaving,
/// each connection ends in exactly the state its own serving loop run alone
/// would have left it in.
pub proof fn lemma_session_state_isolation(
    caps: Seq<CapabilityV>,
    config: ServerConfigV,
    state_a: SessionStateV,
    state_b: SessionStateV,
    trace: Seq<(ConnId, IncomingMessageV)>,
)
    ensures
        spec_run_two_final(caps, config, state_a, state_b, trace).0 == spec_run(
            caps,
            config,
            state_a,
            spec_own_msgs(trace, false),
        ).1,
        spec_run_two_final(caps, config, state_a, state_b, trace).1 == spec_run(
            caps,
            config,
            state_b,
            spec_own_msgs(trace, true),
        ).1,
    decreases trace.len(),
{
    if trace.len() == 0 {
    } else {
        let rest = trace.skip(1);
        if !trace[0].0 {
            let stepped = spec_step(caps, config, state_a, trace[0].1);
            lemma_session_state_isolation(caps, config, stepped.0, state_b, rest);
            let own_a = spec_own_msgs(trace, false);
            assert(own_a.len() > 0 && own_a[0] == trace[0].1);
            assert(own_a.skip(1) =~= spec_own_msgs(rest, false));
            assert(spec_own_msgs(trace, true) =~= spec_own_msgs(rest, true));
        } else {
            let stepped = spec_step(caps, config, state_b, trace[0].1);
            lemma_session_state_isolation(caps, config, state_a, stepped.0, rest);
            let own_b = spec_own_msgs(trace, true);
            assert(own_b.len() > 0 && own_b[0] == trace[0].1);
            assert(own_b.skip(1) =~= spec_own_msgs(rest, true));
            assert(spec_own_msgs(trace, false) =~= spec_own_msgs(rest, false));
        }
    }
}

/// Law: connections are isolated. Whatever the interleaving of two
/// connections' messages, each connection receives exactly the replies its
/// own serving loop would produce alone — its own requests answered, in its
/// own submission order, untouched by the other connection's traffic.
pub proof fn lemma_connection_isolation(
    caps: Seq<CapabilityV>,
    config: ServerConfigV,
    state_a: SessionStateV,
    state_b: SessionStateV,
    trace: Seq<(ConnId, IncomingMessageV)>,
)
    ensures
        spec_own_replies(spec_run_two(caps, config, state_a, state_b, trace), false) == spec_run(
            caps,
            config,
            state_a,
            spec_own_msgs(trace, false),
        ).0,
        spec_own_replies(spec_run_two(caps, config, state_a, state_b, trace), true) == spec_run(
            caps,
            config,
            state_b,
            spec_own_msgs(trace, true),
        ).0,
    decreases trace.len(),
{
    if trace.len() == 0 {
    } else {
        let rest = trace.skip(1);
        if !trace[0].0 {
            let stepped = spec_step(caps, config, state_a, trace[0].1);
            lemma_connection_isolation(caps, config, stepped.0, state_b, rest);
            let out = spec_run_two(caps, config, state_a, state_b, trace);
            let rest_out = spec_run_two(caps, config, stepped.0, state_b, rest);
            assert(out.skip(1) =~= rest_out);
            let own_a = spec_own_msgs(trace, false);
            assert(own_a == seq![trace[0].1] + spec_own_msgs(rest, false));
            assert(own_a.len() > 0 && own_a[0] == trace[0].1);
            assert(own_a.skip(1) =~= spec_own_msgs(rest, false));
            assert(spec_own_replies(out, false) == seq![stepped.1] + spec_own_replies(
                rest_out,
                false,
            ));
            assert(spec_own_msgs(trace, true) =~= spec_own_msgs(rest, true));
            assert(spec_own_replies(out, true) == spec_own_replies(rest_out, true));
        } else {
            let stepped = spec_step(caps, config, state_b, trace[0].1);
            lemma_connection_isolation(caps, config, state_a, stepped.0, rest);
            let out = spec_run_two(caps, config, state_a, state_b, trace);
            let rest_out = spec_run_two(caps, config, state_a, stepped.0, rest);
            assert(out.skip(1) =~= rest_out);
            let own_b = spec_own_msgs(trace, true);
            assert(own_b == seq![trace[0].1] + spec_own_msgs(rest, true));
            assert(own_b.len() > 0 && own_b[0] == trace[0].1);
            assert(own_b.skip(1) =~= spec_own_msgs(rest, true));
            assert(spec_own_replies(out, true) == seq![stepped.1] + spec_own_replies(
                rest_out,
                true,
            ));
            assert(spec_own_msgs(trace, false) =~= spec_own_msgs(rest, false));
            assert(spec_own_replies(out, false) == spec_own_replies(rest_out, false));
        }
    }
}

} // verus!

//! The reconciliation pipeline: resolve the session name, probe the
//! multiplexer, create the session from the resolved layout when it is
//! absent, then switch or attach the calling client.  The contract pins,
//! for every combination of script outcomes and multiplexer answers, which
//! multiplexer calls the pipeline issues, in what order, and which error
//! ends it.

use vstd::prelude::*;
use crate::engine::Outcome;
use crate::engine::ScriptEngine;
use crate::engine::layout_decision;
use crate::engine::layout_outcome_view;
use crate::engine::name_decision;
use crate::engine::name_from_outcome;
use crate::engine::name_outcome_view;
use crate::engine::layout_from_outcome;
use crate::errors::EntryPoint;
use crate::errors::Error;
use crate::errors::Stage;
use crate::mux::MuxCall;
use crate::mux::Multiplexer;
use crate::mux::batch_calls;
use crate::mux::lemma_batch_shape;
use crate::mux::opt_str_view;
use crate::names::final_component_of;

verus! {

/// The one call of the attach step: a client switch when the caller is
/// already inside a client or named an explicit client, a foreground
/// attach otherwise.
pub open spec fn attach_call(name: Seq<char>, client: Option<Seq<char>>, in_client: bool) -> MuxCall {
    if in_client || client is Some {
        MuxCall::SwitchClient { name, client }
    } else {
        MuxCall::Attach { name }
    }
}

/// The attach step, appended to the log `lpre` that the pipeline had
/// produced before it: the call is issued either way, and a failure ends
/// the pipeline with the attach-stage error.
pub open spec fn attach_phase(
    lpre: Seq<MuxCall>,
    l1: Seq<MuxCall>,
    r: Result<(), Error>,
    name: Seq<char>,
    client: Option<Seq<char>>,
    in_client: bool,
    attach_ok: bool,
) -> bool {
    &&& l1 == lpre.push(attach_call(name, client, in_client))
    &&& r == (if attach_ok {
        Result::<(), Error>::Ok(())
    } else {
        Result::<(), Error>::Err(Error::MultiplexerUnavailable { stage: Stage::Attach })
    })
}

/// One complete run of the pipeline, for given outcomes of the script
/// calls (`nout`, `lout`) and of the multiplexer calls (`probed` is `None`
/// when the probe failed; `create_ok` and `attach_ok` report the mutating
/// calls).  States exactly which calls are issued, in what order, and what
/// the pipeline returns.
pub open spec fn open_trace(
    l0: Seq<MuxCall>,
    l1: Seq<MuxCall>,
    r: Result<(), Error>,
    path: Seq<char>,
    client: Option<Seq<char>>,
    in_client: bool,
    nout: Outcome<Seq<char>>,
    probed: Option<bool>,
    lout: Outcome<Seq<Seq<char>>>,
    create_ok: bool,
    attach_ok: bool,
) -> bool {
    match name_decision(nout, path) {
        Err(e) => l1 == l0 && r == Err::<(), Error>(e),
        Ok(name) => match probed {
            None => l1 == l0 && r == Err::<(), Error>(
                Error::MultiplexerUnavailable { stage: Stage::Probe },
            ),
            Some(true) => attach_phase(
                l0.push(MuxCall::Probe { name, found: true }),
                l1,
                r,
                name,
                client,
                in_client,
                attach_ok,
            ),
            Some(false) => {
                let lprobed = l0.push(MuxCall::Probe { name, found: false });
                match layout_decision(lout) {
                    Err(e) => l1 == lprobed && r == Err::<(), Error>(e),
                    Ok(layout) => {
                        let lcreated = lprobed + batch_calls(name, path, layout);
                        if create_ok {
                            attach_phase(lcreated, l1, r, name, client, in_client, attach_ok)
                        } else {
                            l1 == lcreated && r == Err::<(), Error>(
                                Error::MultiplexerUnavailable { stage: Stage::Create },
                            )
                        }
                    },
                }
            },
        },
    }
}

/// What the pipeline promises: some outcome of the two script calls and of
/// the multiplexer calls explains the log it appended and the result it
/// returned, as `open_trace` states.
pub open spec fn open_behavior(
    l0: Seq<MuxCall>,
    l1: Seq<MuxCall>,
    r: Result<(), Error>,
    path: Seq<char>,
    client: Option<Seq<char>>,
    in_client: bool,
) -> bool {
    exists|
        nout: Outcome<Seq<char>>,
        probed: Option<bool>,
        lout: Outcome<Seq<Seq<char>>>,
        create_ok: bool,
        attach_ok: bool,
    |
        open_trace(l0, l1, r, path, client, in_client, nout, probed, lout, create_ok, attach_ok)
}

/// The attach step: switch when the caller is already inside a client or
/// an explicit client was given, attach otherwise.
fn attach_step<M: Multiplexer>(mux: &mut M, name: &str, client: Option<&str>, in_client: bool) -> (r:
    Result<(), Error>)
    ensures
        attach_phase(
            old(mux).log(),
            final(mux).log(),
            r,
            name@,
            opt_str_view(client),
            in_client,
            r is Ok,
        ),
{
    if in_client || client.is_some() {
        match mux.switch_client(name, client) {
            Ok(_) => Ok(()),
            Err(_) => Err(Error::MultiplexerUnavailable { stage: Stage::Attach }),
        }
    } else {
        match mux.attach(name) {
            Ok(_) => Ok(()),
            Err(_) => Err(Error::MultiplexerUnavailable { stage: Stage::Attach }),
        }
    }
}

/// Opens a project: ensures a session for the path exists with the
/// resolved layout, then hands the caller's terminal to it.  A script
/// failure aborts before any further step; a probe failure aborts before
/// any creation; a creation failure aborts before the attach step; an
/// attach failure leaves the created session in place.
pub fn open<E: ScriptEngine, M: Multiplexer>(
    path: &str,
    client: Option<&str>,
    in_client: bool,
    config: &E,
    mux: &mut M,
) -> (r: Result<(), Error>)
    ensures
        open_behavior(
            old(mux).log(),
            final(mux).log(),
            r,
            path@,
            opt_str_view(client),
            in_client,
        ),
{
    let ghost l0 = old(mux).log();
    let filename = final_component_of(path);
    let nout = match &filename {
        Some(f) => config.call_name(path, f.as_str()),
        None => config.call_name(path, ""),
    };
    let ghost gnout = name_outcome_view(nout);
    let name = match name_from_outcome(nout, path) {
        Ok(n) => n,
        Err(e) => {
            proof {
                assert(open_trace(
                    l0,
                    mux.log(),
                    Err::<(), Error>(e),
                    path@,
                    opt_str_view(client),
                    in_client,
                    gnout,
                    None,
                    Outcome::Absent,
                    true,
                    true,
                ));
            }
            return Err(e);
        },
    };
    let probed = match mux.has_session(name.as_str()) {
        Ok(found) => found,
        Err(_) => {
            let r = Err::<(), Error>(Error::MultiplexerUnavailable { stage: Stage::Probe });
            proof {
                assert(open_trace(
                    l0,
                    mux.log(),
                    r,
                    path@,
                    opt_str_view(client),
                    in_client,
                    gnout,
                    None,
                    Outcome::Absent,
                    true,
                    true,
                ));
            }
            return r;
        },
    };
    if !probed {
        let lout = match &filename {
            Some(f) => config.call_layout(path, f.as_str(), name.as_str()),
            None => config.call_layout(path, "", name.as_str()),
        };
        let ghost glout = layout_outcome_view(lout);
        let layout = match layout_from_outcome(lout) {
            Ok(v) => v,
            Err(e) => {
                proof {
                    assert(open_trace(
                        l0,
                        mux.log(),
                        Err::<(), Error>(e),
                        path@,
                        opt_str_view(client),
                        in_client,
                        gnout,
                        Some(false),
                        glout,
                        true,
                        true,
                    ));
                }
                return Err(e);
            },
        };
        if mux.create_session(name.as_str(), path, &layout).is_err() {
            let r = Err::<(), Error>(Error::MultiplexerUnavailable { stage: Stage::Create });
            proof {
                assert(open_trace(
                    l0,
                    mux.log(),
                    r,
                    path@,
                    opt_str_view(client),
                    in_client,
                    gnout,
                    Some(false),
                    glout,
                    false,
                    true,
                ));
            }
            return r;
        }
        let r = attach_step(mux, name.as_str(), client, in_client);
        proof {
            assert(open_trace(
                l0,
                mux.log(),
                r,
                path@,
                opt_str_view(client),
                in_client,
                gnout,
                Some(false),
                glout,
                true,
                r is Ok,
            ));
        }
        r
    } else {
        let r = attach_step(mux, name.as_str(), client, in_client);
        proof {
            assert(open_trace(
                l0,
                mux.log(),
                r,
                path@,
                opt_str_view(client),
                in_client,
                gnout,
                Some(true),
                Outcome::Absent,
                true,
                r is Ok,
            ));
        }
        r
    }
}

/// Every call of the creation batch is a session creation or a window
/// addition.
proof fn lemma_batch_kinds(name: Seq<char>, dir: Seq<char>, layout: Seq<Seq<char>>)
    requires
        layout.len() >= 1,
    ensures
        forall|j: int|
            0 <= j < batch_calls(name, dir, layout).len() ==> (#[trigger] batch_calls(
                name,
                dir,
                layout,
            )[j]) is NewSession || batch_calls(name, dir, layout)[j] is NewWindow,
{
    lemma_batch_shape(name, dir, layout);
}

/// When the probe reports the session as existing, the pipeline issues no
/// creation call: the calls it appends after the probe are free of session
/// creations and window additions.
pub proof fn lemma_existing_session_skips_create(
    l0: Seq<MuxCall>,
    l1: Seq<MuxCall>,
    r: Result<(), Error>,
    path: Seq<char>,
    client: Option<Seq<char>>,
    in_client: bool,
)
    requires
        open_behavior(l0, l1, r, path, client, in_client),
        l0.len() < l1.len(),
        l1[l0.len() as int] matches MuxCall::Probe { found: true, .. },
    ensures
        forall|i: int|
            l0.len() <= i < l1.len() ==> !((#[trigger] l1[i]) is NewSession)
                && !(l1[i] is NewWindow),
{
    let (nout, probed, lout, create_ok, attach_ok) = choose|
        nout: Outcome<Seq<char>>,
        probed: Option<bool>,
        lout: Outcome<Seq<Seq<char>>>,
        create_ok: bool,
        attach_ok: bool,
    |
        open_trace(l0, l1, r, path, client, in_client, nout, probed, lout, create_ok, attach_ok);
    match name_decision(nout, path) {
        Err(_) => {},
        Ok(name) => match probed {
            None => {},
            Some(true) => {
                assert(l1 == l0.push(MuxCall::Probe { name, found: true }).push(
                    attach_call(name, client, in_client),
                ));
            },
            Some(false) => {
                let lprobed = l0.push(MuxCall::Probe { name, found: false });
                assert(l1[l0.len() as int] == (MuxCall::Probe { name, found: false })) by {
                    match layout_decision(lout) {
                        Err(_) => {},
                        Ok(layout) => {
                            assert(lprobed[l0.len() as int] == (MuxCall::Probe {
                                name,
                                found: false,
                            }));
                        },
                    }
                }
            },
        },
    }
}

/// The attach strategy is decided by the execution context alone: a switch
/// call is issued only when the caller is already inside a client or named
/// an explicit one, and a foreground attach only in the opposite case.
pub proof fn lemma_attach_strategy(
    l0: Seq<MuxCall>,
    l1: Seq<MuxCall>,
    r: Result<(), Error>,
    path: Seq<char>,
    client: Option<Seq<char>>,
    in_client: bool,
)
    requires
        open_behavior(l0, l1, r, path, client, in_client),
    ensures
        forall|i: int|
            l0.len() <= i < l1.len() && ((#[trigger] l1[i]) is SwitchClient) ==> (in_client
                || client is Some),
        forall|i: int|
            l0.len() <= i < l1.len() && ((#[trigger] l1[i]) is Attach) ==> (!in_client
                && client is None),
{
    let (nout, probed, lout, create_ok, attach_ok) = choose|
        nout: Outcome<Seq<char>>,
        probed: Option<bool>,
        lout: Outcome<Seq<Seq<char>>>,
        create_ok: bool,
        attach_ok: bool,
    |
        open_trace(l0, l1, r, path, client, in_client, nout, probed, lout, create_ok, attach_ok);
    match name_decision(nout, path) {
        Err(_) => {},
        Ok(name) => match probed {
            None => {},
            Some(true) => {
                assert(l1 == l0.push(MuxCall::Probe { name, found: true }).push(
                    attach_call(name, client, in_client),
                ));
            },
            Some(false) => {
                let lprobed = l0.push(MuxCall::Probe { name, found: false });
                match layout_decision(lout) {
                    Err(_) => {},
                    Ok(layout) => {
                        lemma_batch_kinds(name, path, layout);
                        let lcreated = lprobed + batch_calls(name, path, layout);
                        if create_ok {
                            assert(l1 == lcreated.push(attach_call(name, client, in_client)));
                        }
                    },
                }
            },
        },
    }
}

/// A failing script entry point aborts the pipeline before any state is
/// touched: a name failure before any multiplexer call at all, a layout
/// failure before any call but the read-only probe.
pub proof fn lemma_script_failure_aborts(
    l0: Seq<MuxCall>,
    l1: Seq<MuxCall>,
    r: Result<(), Error>,
    path: Seq<char>,
    client: Option<Seq<char>>,
    in_client: bool,
)
    requires
        open_behavior(l0, l1, r, path, client, in_client),
    ensures
        r == Err::<(), Error>(Error::ScriptEvaluation { entry: EntryPoint::SessionName }) ==> l1
            == l0,
        (r matches Err(e) && e matches Error::ScriptEvaluation { .. }) ==> forall|i: int|
            l0.len() <= i < l1.len() ==> (#[trigger] l1[i]) is Probe,
{
    let (nout, probed, lout, create_ok, attach_ok) = choose|
        nout: Outcome<Seq<char>>,
        probed: Option<bool>,
        lout: Outcome<Seq<Seq<char>>>,
        create_ok: bool,
        attach_ok: bool,
    |
        open_trace(l0, l1, r, path, client, in_client, nout, probed, lout, create_ok, attach_ok);
    match name_decision(nout, path) {
        Err(_) => {},
        Ok(name) => match probed {
            None => {},
            Some(true) => {
                assert(l1 == l0.push(MuxCall::Probe { name, found: true }).push(
                    attach_call(name, client, in_client),
                ));
            },
            Some(false) => {
                let lprobed = l0.push(MuxCall::Probe { name, found: false });
                match layout_decision(lout) {
                    Err(_) => {
                        assert(forall|i: int|
                            l0.len() <= i < l1.len() ==> (#[trigger] l1[i]) is Probe);
                    },
                    Ok(layout) => {
                        let lcreated = lprobed + batch_calls(name, path, layout);
                        if create_ok {
                            assert(l1 == lcreated.push(attach_call(name, client, in_client)));
                        }
                    },
                }
            },
        },
    }
}

} // verus!

//! What a script does next depends only on what it has read so far, so a run
//! can be played one action at a time.

use vstd::prelude::*;

use crate::command::Commands;
use crate::hardware::{HeaderPin, PcbRevision, PinMode, Readings, SlgPin};
use crate::reply;
use crate::reply::Reply;
use crate::script;
use crate::script::Action;

verus! {

/// The script of a command, unexpanded.
#[verifier::opaque]
pub open spec fn actions(command: Commands, relay: bool, r: Readings) -> Seq<Action> {
    script::script(command, relay, r)
}

/// What comes at a place of a script depends only on what is read before it.
proof fn script_follows_reads(command: Commands, relay: bool, r: Readings, w: Readings, k: int)
    requires
        0 <= k < script::script(command, relay, r).len(),
        forall|i: int|
            0 <= i < k ==> reply::reads_same(
                #[trigger] script::script(command, relay, r)[i],
                r,
                w,
            ),
    ensures
        k < script::script(command, relay, w).len(),
        forall|j: int|
            0 <= j <= k ==> #[trigger] script::script(command, relay, w)[j]
                == script::script(command, relay, r)[j],
{
    let s = script::script(command, relay, r);
    let t = script::script(command, relay, w);
    let p = script::prologue(r).len() as int;
    assert(s[0] == Action::ReadPower && s[1] == Action::ReadFault);
    if k >= 2 {
        assert(reply::reads_same(s[0], r, w) && reply::reads_same(s[1], r, w));
        assert(script::prologue(r) == script::prologue(w));
        assert(s[p - 1] == Action::ReadRevision);
        if k >= p {
            assert(reply::reads_same(s[p - 1], r, w));
            match command {
                Commands::Status => {
                    status_follows_reads(relay, r, w, p, k);
                },
                Commands::GpioGet { pin } => {
                    if r.revision == PcbRevision::RevC && k > p {
                        assert(s[p] == Action::ReadHeader(pin));
                        assert(reply::reads_same(s[p], r, w));
                    }
                },
                _ => {
                    assert(script::body(command, relay, r) == script::body(
                        command,
                        relay,
                        w,
                    ));
                },
            }
        }
    }
}

/// [`script_follows_reads`] for the `status` command, past the prologue.
proof fn status_follows_reads(relay: bool, r: Readings, w: Readings, p: int, k: int)
    requires
        p == script::prologue(r).len(),
        p <= k < script::script(Commands::Status, relay, r).len(),
        script::prologue(r) == script::prologue(w),
        r.power == w.power,
        r.revision == w.revision,
        forall|i: int|
            0 <= i < k ==> reply::reads_same(
                #[trigger] script::script(Commands::Status, relay, r)[i],
                r,
                w,
            ),
    ensures
        k < script::script(Commands::Status, relay, w).len(),
        forall|j: int|
            0 <= j <= k ==> #[trigger] script::script(Commands::Status, relay, w)[j]
                == script::script(Commands::Status, relay, r)[j],
{
    let s = script::script(Commands::Status, relay, r);
    let t = script::script(Commands::Status, relay, w);
    assert(script::status_head(relay, r) == script::status_head(relay, w));
    if r.revision == PcbRevision::RevC {
        let h = p + script::status_head(relay, r).len();
        let (a, x) = status_parts(relay, r);
        let (b, y) = status_parts(relay, w);
        assert(a == b);
        if k <= h + 6 {
            lines_follow_reads(s, t, a, x, y, r, w, k);
        } else {
            lines_follow_reads(s, t, a, x, y, r, w, h + 6);
            assert(s[h + 6] == x[0]);
            assert(reply::reads_same(s[h + 6], r, w));
            status_pins_follow_reads(relay, r, w, h + 6, k);
        }
    }
}

/// Two sequences that differ in the lines on the USB switch and the
/// mixed-signal chip, and after them, agree up to a place where they agree on
/// what is read before it.
proof fn lines_follow_reads(
    s: Seq<Action>,
    t: Seq<Action>,
    start: Seq<Action>,
    x: Seq<Action>,
    y: Seq<Action>,
    r: Readings,
    w: Readings,
    k: int,
)
    requires
        s == start + script::status_lines(r) + x,
        t == start + script::status_lines(w) + y,
        x.len() > 0,
        y.len() > 0,
        x[0] == y[0],
        0 <= k <= start.len() + 6,
        forall|i: int| 0 <= i < k ==> reply::reads_same(#[trigger] s[i], r, w),
    ensures
        k < t.len(),
        forall|j: int| 0 <= j <= k ==> #[trigger] t[j] == s[j],
        k == start.len() + 6 ==> script::status_lines(r) == script::status_lines(w),
{
    let h = start.len() as int;
    let (u, v) = (script::status_lines(r), script::status_lines(w));
    assert(forall|j: int| h <= j < h + 6 ==> #[trigger] s[j] == u[j - h]);
    assert(forall|j: int| h <= j < h + 6 ==> #[trigger] t[j] == v[j - h]);
    if k > h {
        assert(reply::reads_same(s[h], r, w));
    }
    if k > h + 2 {
        assert(reply::reads_same(s[h + 2], r, w));
    }
    if k > h + 4 {
        assert(reply::reads_same(s[h + 4], r, w));
        assert(u == v);
    }
    if k == h + 6 {
        assert(s[k] == x[0] && t[k] == y[0]);
    }
}

/// What the `status` command does on a board of revision C, cut before and
/// after the lines on the USB switch and the mixed-signal chip.
proof fn status_parts(relay: bool, r: Readings) -> (parts: (Seq<Action>, Seq<Action>))
    requires
        r.revision == PcbRevision::RevC,
    ensures
        parts.0 == script::prologue(r) + script::status_head(relay, r),
        script::script(Commands::Status, relay, r) == parts.0
            + script::status_lines(r) + parts.1,
        parts.1 == (if relay {
            script::status_relay(r)
        } else {
            script::status_pin(HeaderPin::P0, r)
        }) + script::status_pin(HeaderPin::P1, r) + seq![Action::Finish(Ok(()))],
        parts.1.len() > 0,
        parts.1[0] == Action::ReadHeaderMode(HeaderPin::P0),
{
    let first = if relay {
        script::status_relay(r)
    } else {
        script::status_pin(HeaderPin::P0, r)
    };
    let rest = first + script::status_pin(HeaderPin::P1, r) + seq![Action::Finish(Ok(()))];
    let start = script::prologue(r) + script::status_head(relay, r);
    assert(script::script(Commands::Status, relay, r) =~= start
        + script::status_lines(r) + rest);
    (start, rest)
}

/// [`status_follows_reads`] past the first read of a header pin.
proof fn status_pins_follow_reads(relay: bool, r: Readings, w: Readings, q: int, k: int)
    requires
        q == script::prologue(r).len() + script::status_head(relay, r).len()
            + script::status_lines(r).len(),
        q < k < script::script(Commands::Status, relay, r).len(),
        script::prologue(r) == script::prologue(w),
        script::status_head(relay, r) == script::status_head(relay, w),
        script::status_lines(r) == script::status_lines(w),
        r.revision == PcbRevision::RevC,
        r.revision == w.revision,
        r.mode0 == w.mode0,
        forall|i: int|
            0 <= i < k ==> reply::reads_same(
                #[trigger] script::script(Commands::Status, relay, r)[i],
                r,
                w,
            ),
    ensures
        k < script::script(Commands::Status, relay, w).len(),
        forall|j: int|
            0 <= j <= k ==> #[trigger] script::script(Commands::Status, relay, w)[j]
                == script::script(Commands::Status, relay, r)[j],
{
    let s = script::script(Commands::Status, relay, r);
    let t = script::script(Commands::Status, relay, w);
    let first = |v: Readings|
        if relay {
            script::status_relay(v)
        } else {
            script::status_pin(HeaderPin::P0, v)
        };
    let q1 = q + first(r).len();
    assert(first(r).len() == first(w).len());
    assert(s[q1] == Action::ReadHeaderMode(HeaderPin::P1));
    assert(s[q1 + 1] == Action::ReadHeader(HeaderPin::P1));
    if !(relay && r.mode0 == PinMode::Input) {
        assert(s[q + 1] == Action::ReadHeader(HeaderPin::P0));
        if k > q + 1 {
            assert(reply::reads_same(s[q + 1], r, w));
        }
    }
    if k > q + 1 {
        assert(first(r) == first(w));
    }
    if k > q1 {
        assert(reply::reads_same(s[q1], r, w));
        if k > q1 + 1 {
            assert(reply::reads_same(s[q1 + 1], r, w));
        }
    }
}

/// Where a script reads a value.
spec fn read_place(command: Commands, relay: bool, r: Readings, action: Action) -> int {
    let p = script::prologue(r).len() as int;
    let h = p + script::status_head(relay, r).len();
    let first = if relay {
        script::status_relay(r)
    } else {
        script::status_pin(HeaderPin::P0, r)
    };
    match action {
        Action::ReadPower => 0,
        Action::ReadFault => 1,
        Action::ReadRevision => p - 1,
        Action::ReadSwitch => h,
        Action::ReadSlg(SlgPin::SlgIo0) => h + 2,
        Action::ReadSlg(SlgPin::SlgIo1) => h + 4,
        Action::ReadHeaderMode(HeaderPin::P0) => h + 6,
        Action::ReadHeaderMode(HeaderPin::P1) => h + 6 + first.len(),
        Action::ReadHeader(pin) => if command is GpioGet {
            p
        } else if pin == HeaderPin::P0 {
            h + 7
        } else {
            h + 6 + first.len() + 1
        },
        _ => 0,
    }
}

/// A script reads each value at one place only, and ends at its last place
/// only.
proof fn script_shape(command: Commands, relay: bool, r: Readings)
    ensures
        script::script(command, relay, r).len() > 0,
        script::script(command, relay, r).last() is Finish,
        forall|i: int|
            0 <= i < script::script(command, relay, r).len() ==> {
                let action = #[trigger] script::script(command, relay, r)[i];
                &&& reply::is_read(action) ==> i == read_place(command, relay, r, action)
                &&& action is Finish ==> i == script::script(command, relay, r).len() - 1
            },
{
    script::countdown_counts(script::SDP_SECONDS);
    let s = script::script(command, relay, r);
    if command == Commands::Sdp && r.revision == PcbRevision::RevC {
        let p = script::prologue(r);
        let c = script::countdown(script::SDP_SECONDS);
        assert forall|i: int| 0 <= i < s.len() implies {
            let action = #[trigger] s[i];
            &&& reply::is_read(action) ==> i == read_place(command, relay, r, action)
            &&& action is Finish ==> i == s.len() - 1
        } by {
            if p.len() + 2 <= i < p.len() + 2 + c.len() {
                assert(s[i] == c[i - p.len() - 2]);
            }
        }
    } else if command == Commands::Status && r.revision == PcbRevision::RevC {
        status_shape(relay, r);
    }
}

/// [`script_shape`] for the `status` command on a board of revision C.
proof fn status_shape(relay: bool, r: Readings)
    requires
        r.revision == PcbRevision::RevC,
    ensures
        script::script(Commands::Status, relay, r).len() > 0,
        script::script(Commands::Status, relay, r).last() is Finish,
        forall|i: int|
            0 <= i < script::script(Commands::Status, relay, r).len() ==> {
                let action = #[trigger] script::script(Commands::Status, relay, r)[i];
                &&& reply::is_read(action) ==> i == read_place(Commands::Status, relay, r, action)
                &&& action is Finish ==> i == script::script(Commands::Status, relay, r).len() - 1
            },
{
    let s = script::script(Commands::Status, relay, r);
    let first = if relay {
        script::status_relay(r)
    } else {
        script::status_pin(HeaderPin::P0, r)
    };
    let second = script::status_pin(HeaderPin::P1, r);
    let (start, rest) = status_parts(relay, r);
    let lines = script::status_lines(r);
    let q = start.len() + lines.len();
    assert(rest == first + second + seq![Action::Finish(Ok(()))]);
    assert forall|i: int| 0 <= i < s.len() implies {
        let action = #[trigger] s[i];
        &&& reply::is_read(action) ==> i == read_place(Commands::Status, relay, r, action)
        &&& action is Finish ==> i == s.len() - 1
    } by {
        if i < start.len() {
            assert(s[i] == start[i]);
        } else if i < q {
            assert(s[i] == lines[i - start.len()]);
        } else if i < q + first.len() {
            assert(s[i] == first[i - q]);
        } else if i < q + first.len() + second.len() {
            assert(s[i] == second[i - q - first.len()]);
        }
    }
}

/// The script unexpanded is the script.
pub proof fn unexpanded(command: Commands, relay: bool, r: Readings)
    ensures
        actions(command, relay, r) == script::script(command, relay, r),
{
    reveal(actions);
}

/// [`script_follows_reads`], of the script unexpanded.
pub proof fn actions_follow_reads(command: Commands, relay: bool, r: Readings, w: Readings, k: int)
    requires
        0 <= k < actions(command, relay, r).len(),
        forall|i: int|
            0 <= i < k ==> reply::reads_same(#[trigger] actions(command, relay, r)[i], r, w),
    ensures
        k < actions(command, relay, w).len(),
        forall|j: int|
            0 <= j <= k ==> #[trigger] actions(command, relay, w)[j] == actions(
                command,
                relay,
                r,
            )[j],
{
    reveal(actions);
    let s = actions(command, relay, r);
    let t = actions(command, relay, w);
    assert(s == script::script(command, relay, r) && t == script::script(command, relay, w));
    script_follows_reads(command, relay, r, w, k);
}

/// A script ends at its last place only.
pub proof fn actions_end(command: Commands, relay: bool, r: Readings)
    ensures
        actions(command, relay, r).len() > 0,
        actions(command, relay, r).last() is Finish,
        forall|i: int|
            0 <= i < actions(command, relay, r).len() && #[trigger] actions(
                command,
                relay,
                r,
            )[i] is Finish ==> i == actions(command, relay, r).len() - 1,
{
    reveal(actions);
    script_shape(command, relay, r);
}

/// No value is read twice.
proof fn reads_are_distinct(command: Commands, relay: bool, r: Readings, i: int, k: int)
    requires
        0 <= i < k < actions(command, relay, r).len(),
        reply::is_read(actions(command, relay, r)[i]),
    ensures
        actions(command, relay, r)[i] != actions(command, relay, r)[k],
{
    reveal(actions);
    script_shape(command, relay, r);
}

/// What follows an action. With the reply to it learned, the script is the same
/// up to the action, and goes on after it.
pub proof fn script_goes_on(command: Commands, relay: bool, r: Readings, k: int, reply: Reply)
    requires
        0 <= k < actions(command, relay, r).len(),
        !(actions(command, relay, r)[k] is Finish),
    ensures
        ({
            let learned = reply::learn(r, actions(command, relay, r)[k], reply);
            &&& k + 1 < actions(command, relay, learned).len()
            &&& forall|j: int|
                0 <= j <= k ==> #[trigger] actions(command, relay, learned)[j] == actions(
                    command,
                    relay,
                    r,
                )[j]
            &&& forall|i: int|
                0 <= i < k ==> reply::reads_same(
                    #[trigger] actions(command, relay, learned)[i],
                    r,
                    learned,
                )
        }),
{
    let s = actions(command, relay, r);
    let learned = reply::learn(r, s[k], reply);
    assert forall|i: int| 0 <= i < k implies reply::reads_same(#[trigger] s[i], r, learned) by {
        if reply::is_read(s[i]) {
            reads_are_distinct(command, relay, r, i, k);
        }
        reply::learn_keeps_the_rest(r, s[k], reply, s[i]);
    }
    actions_follow_reads(command, relay, r, learned, k);
    assert(actions(command, relay, learned)[k] == s[k]);
    actions_end(command, relay, learned);
}

} // verus!

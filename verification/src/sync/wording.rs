//! What holds of the messages of commits, whatever the template.

use crate::sync::commit::commit_message;
use crate::text::{has_prefix, replaced};
use crate::text_laws::{lacks, replacing_skips_what_is_different, replacing_takes_the_place};
use vstd::prelude::*;

verus! {

proof fn placeholders()
    ensures
        "{hostname}"@ == seq!['{'] + "hostname"@ + seq!['}'],
        "{timestamp}"@ == seq!['{'] + "timestamp"@ + seq!['}'],
        "hostname"@ != "timestamp"@,
        lacks("hostname"@, '{') && lacks("hostname"@, '}'),
        lacks("timestamp"@, '{') && lacks("timestamp"@, '}'),
{
    reveal_strlit("{hostname}");
    reveal_strlit("{timestamp}");
    reveal_strlit("hostname");
    reveal_strlit("timestamp");
    assert("{hostname}"@ =~= seq!['{'] + "hostname"@ + seq!['}']);
    assert("{timestamp}"@ =~= seq!['{'] + "timestamp"@ + seq!['}']);
    assert("hostname"@.len() != "timestamp"@.len());
}

/// A name in braces is left alone where another one is replaced.
proof fn other_names_stay(
    name: Seq<char>,
    other: Seq<char>,
    s: Seq<char>,
    to: Seq<char>,
)
    requires
        name != other,
        lacks(name, '{') && lacks(name, '}'),
        lacks(other, '{') && lacks(other, '}'),
    ensures
        replaced(
            seq!['{'] + other + seq!['}'] + s,
            seq!['{'] + name + seq!['}'],
            to,
        ) == seq!['{'] + other + seq!['}'] + replaced(s, seq!['{'] + name + seq!['}'], to),
{
    let from = seq!['{'] + name + seq!['}'];
    let t = seq!['{'] + other + seq!['}'] + s;
    let rest = other + seq!['}'];
    if has_prefix(t, from) {
        let k = if name.len() <= other.len() {
            name.len() as int + 1
        } else {
            other.len() as int + 1
        };
        let first = t.take(from.len() as int);
        assert(first == from);
        assert(first[k] == t[k] && first[k] == from[k]);
        if name.len() == other.len() {
            assert forall|i: int| 0 <= i < name.len() implies name[i] == other[i] by {
                assert(first[i + 1] == t[i + 1] && first[i + 1] == from[i + 1]);
            }
            assert(name =~= other);
        } else if name.len() < other.len() {
            assert(t[k] == other[k - 1]);
            assert(from[k] == '}');
        } else {
            assert(t[k] == '}');
            assert(from[k] == name[k - 1]);
        }
        assert(false);
    }
    assert(t.skip(1) =~= rest + s);
    assert(from[0] == '{');
    assert forall|i: int| 0 <= i < rest.len() implies #[trigger] rest[i] != '{' by {
        if i < other.len() {
            assert(rest[i] == other[i]);
        }
    }
    replacing_skips_what_is_different(rest, s, from, to);
    let done = replaced(s, from, to);
    if t.len() < from.len() {
        assert(done == s);
    } else {
        assert(t[0] == '{');
        assert(seq!['{'] + (rest + done) =~= seq!['{'] + other + seq!['}'] + done);
    }
}

/// Wherever `{timestamp}` stands in a template, the time takes its place, and what follows is
/// rendered as it would be by itself.
pub proof fn the_time_is_filled_in(
    a: Seq<char>,
    b: Seq<char>,
    host: Seq<char>,
    time: Seq<char>,
)
    requires
        lacks(a, '{'),
    ensures
        commit_message(Some(a + "{timestamp}"@ + b), host, time) == a + time + commit_message(
            Some(b),
            host,
            time,
        ),
{
    placeholders();
    let h = "{hostname}"@;
    let t = "{timestamp}"@;
    let rest = replaced(b, h, host);
    assert(a + t + b =~= a + (t + b));
    replacing_skips_what_is_different(a, t + b, h, host);
    other_names_stay("hostname"@, "timestamp"@, b, host);
    assert(replaced(a + t + b, h, host) == a + (t + rest));
    replacing_skips_what_is_different(a, t + rest, t, time);
    replacing_takes_the_place(rest, t, time);
    assert(a + (time + replaced(rest, t, time)) =~= a + time + replaced(rest, t, time));
}

/// Wherever `{hostname}` stands in a template, the name of the machine takes its place, and what
/// follows is rendered as it would be by itself.
pub proof fn the_machine_is_filled_in(
    a: Seq<char>,
    b: Seq<char>,
    host: Seq<char>,
    time: Seq<char>,
)
    requires
        lacks(a, '{'),
        lacks(host, '{'),
    ensures
        commit_message(Some(a + "{hostname}"@ + b), host, time) == a + host + commit_message(
            Some(b),
            host,
            time,
        ),
{
    placeholders();
    let h = "{hostname}"@;
    let t = "{timestamp}"@;
    let rest = replaced(b, h, host);
    assert(a + h + b =~= a + (h + b));
    replacing_skips_what_is_different(a, h + b, h, host);
    replacing_takes_the_place(b, h, host);
    replacing_skips_what_is_different(host, rest, t, time);
    replacing_skips_what_is_different(a, host + rest, t, time);
    assert(a + (host + replaced(rest, t, time)) =~= a + host + replaced(rest, t, time));
}

/// Nothing else changes: neither what has no braces nor any other name in braces.
pub proof fn everything_else_stays(
    a: Seq<char>,
    name: Seq<char>,
    b: Seq<char>,
    host: Seq<char>,
    time: Seq<char>,
)
    requires
        lacks(a, '{'),
        lacks(name, '{') && lacks(name, '}'),
        name != "hostname"@ && name != "timestamp"@,
    ensures
        commit_message(Some(a), host, time) == a,
        commit_message(Some(a + seq!['{'] + name + seq!['}'] + b), host, time) == a + seq!['{']
            + name + seq!['}'] + commit_message(Some(b), host, time),
{
    placeholders();
    let h = "{hostname}"@;
    let t = "{timestamp}"@;
    let none = Seq::<char>::empty();
    let other = seq!['{'] + name + seq!['}'];
    replacing_takes_the_place(none, h, host);
    replacing_takes_the_place(none, t, time);
    replacing_skips_what_is_different(a, none, h, host);
    replacing_skips_what_is_different(a, none, t, time);
    assert(a + none =~= a);
    let rest = replaced(b, h, host);
    assert(a + seq!['{'] + name + seq!['}'] + b =~= a + (other + b));
    replacing_skips_what_is_different(a, other + b, h, host);
    other_names_stay("hostname"@, name, b, host);
    replacing_skips_what_is_different(a, other + rest, t, time);
    other_names_stay("timestamp"@, name, rest, time);
    let done = replaced(rest, t, time);
    assert(a + (other + done) =~= a + seq!['{'] + name + seq!['}'] + done);
}

/// Without a template the message is that of the usual one.
pub proof fn there_is_a_usual_message(host: Seq<char>, time: Seq<char>)
    requires
        lacks(host, '{'),
    ensures
        commit_message(None, host, time) == commit_message(
            Some("changes from {hostname} on {timestamp}"@),
            host,
            time,
        ),
        commit_message(None, host, time) == "changes from "@ + host + " on "@ + time,
{
    reveal_strlit("changes from {hostname} on {timestamp}");
    reveal_strlit("changes from ");
    reveal_strlit(" on ");
    reveal_strlit("{hostname}");
    reveal_strlit("{timestamp}");
    let none = Seq::<char>::empty();
    let whole = "changes from {hostname} on {timestamp}"@;
    let rest = " on "@ + "{timestamp}"@ + none;
    assert(whole =~= "changes from "@ + "{hostname}"@ + rest);
    the_machine_is_filled_in("changes from "@, rest, host, time);
    the_time_is_filled_in(" on "@, none, host, time);
    assert("hostname"@.len() == 8 && "timestamp"@.len() == 9) by {
        reveal_strlit("hostname");
        reveal_strlit("timestamp");
    }
    everything_else_stays(none, none, none, host, time);
    let message = commit_message(None, host, time);
    assert(message =~= "changes from "@ + host + (" on "@ + time + none));
}

} // verus!

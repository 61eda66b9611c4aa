//! Where the session bus is, through which the indicator is shown.

use crate::path;
use crate::path_laws::{
    directories_are_above_what_is_in_them, fit_for_a_name, names_come_after_the_directory,
};
use crate::text;
use crate::text_laws::{
    lacks, pieces_are_parted_by_the_separator, prefixes_are_what_comes_first,
};
use vstd::prelude::*;
use vstd::string::*;

verus! {

/// The first position of a character in a text, or its length.
pub open spec fn position(s: Seq<char>, c: char) -> int
    decreases s.len(),
{
    if s.len() == 0 || s[0] == c {
        0
    } else {
        1 + position(s.skip(1), c)
    }
}

/// The value of the parameter `path`, if this is it: what follows the first `=`, where `path` is
/// before it.
pub open spec fn path_value(param: Seq<char>) -> Option<Seq<char>> {
    let at = position(param, '=');
    if at < param.len() && param.take(at) == "path"@ && at + 1 < param.len() {
        Some(param.skip(at + 1))
    } else {
        None
    }
}

/// The first of the parameters from position `i` on that is a path.
pub open spec fn first_path(params: Seq<Seq<char>>, i: nat) -> Option<Seq<char>>
    decreases params.len() - i,
{
    if i >= params.len() {
        None
    } else {
        match path_value(params[i as int]) {
            Some(path) => Some(path),
            None => first_path(params, i + 1),
        }
    }
}

/// The path in one address, if it is that of a socket.
pub open spec fn socket_in(address: Seq<char>) -> Option<Seq<char>> {
    if text::has_prefix(address, "unix:"@) {
        first_path(text::pieces(address.skip("unix:"@.len() as int), ','), 0)
    } else {
        None
    }
}

/// The path of the first socket among the addresses from position `i` on.
pub open spec fn first_socket(addresses: Seq<Seq<char>>, i: nat) -> Option<Seq<char>>
    decreases addresses.len() - i,
{
    if i >= addresses.len() {
        None
    } else {
        match socket_in(addresses[i as int]) {
            Some(path) => Some(path),
            None => first_socket(addresses, i + 1),
        }
    }
}

/// The path of the first socket in a list of addresses.
pub open spec fn socket_of(addresses: Seq<char>) -> Option<Seq<char>> {
    first_socket(text::pieces(addresses, ';'), 0)
}

/// The value of the parameter `path`, if this is it.
fn read_path(param: &str) -> (value: Option<String>)
    ensures
        match value {
            Some(value) => path_value(param@) == Some(value@),
            None => path_value(param@) is None,
        },
{
    let chars: Vec<char> = text::chars_of(param);
    let mut at: usize = 0;
    assert(chars@.skip(0) =~= param@);
    while at < chars.len() && chars[at] != '='
        invariant
            at <= chars@.len(),
            chars@ == param@,
            position(param@, '=') == at + position(param@.skip(at as int), '='),
        decreases chars@.len() - at,
    {
        assert(param@.skip(at as int).skip(1) =~= param@.skip(at + 1));
        at = at + 1;
    }
    assert(position(param@.skip(at as int), '=') == 0);
    if at >= chars.len() {
        return None;
    }
    let key: String = text::text_between(&chars, 0, at);
    assert(key@ =~= param@.take(at as int));
    if !text::same_text(key.as_str(), "path") || at + 1 == chars.len() {
        return None;
    }
    let value: String = text::text_between(&chars, at + 1, chars.len());
    assert(value@ =~= param@.skip(at + 1));
    Some(value)
}

/// The path in one address, if it is that of a socket.
fn read_socket(address: &str) -> (found: Option<String>)
    ensures
        match found {
            Some(path) => socket_in(address@) == Some(path@),
            None => socket_in(address@) is None,
        },
{
    match text::strip_prefix(address, "unix:") {
        None => None,
        Some(rest) => {
            let params: Vec<String> = text::split(rest.as_str(), ',');
            let ghost all = text::pieces(rest@, ',');
            let mut i: usize = 0;
            while i < params.len()
                invariant
                    i <= params@.len(),
                    text::views(params@) == all,
                    all == text::pieces(address@.skip("unix:"@.len() as int), ','),
                    text::has_prefix(address@, "unix:"@),
                    first_path(all, 0) == first_path(all, i as nat),
                decreases params@.len() - i,
            {
                assert(all[i as int] == params@[i as int]@);
                if let Some(path) = read_path(params[i].as_str()) {
                    return Some(path);
                }
                i = i + 1;
            }
            assert(all.len() == params@.len());
            None
        },
    }
}

/// The path of the first socket in a list of addresses.
pub fn parse_dbus_unix_path(address: &str) -> (found: Option<String>)
    ensures
        match found {
            Some(path) => socket_of(address@) == Some(path@),
            None => socket_of(address@) is None,
        },
{
    let segments: Vec<String> = text::split(address, ';');
    let ghost all = text::pieces(address@, ';');
    let mut i: usize = 0;
    while i < segments.len()
        invariant
            i <= segments@.len(),
            text::views(segments@) == all,
            all == text::pieces(address@, ';'),
            first_socket(all, 0) == first_socket(all, i as nat),
        decreases segments@.len() - i,
    {
        assert(all[i as int] == segments@[i as int]@);
        if let Some(path) = read_socket(segments[i].as_str()) {
            return Some(path);
        }
        i = i + 1;
    }
    assert(all.len() == segments@.len());
    None
}

/// Whether something that happened at `path` concerns the socket: it is the same place, or a file
/// of the same name.
pub open spec fn concerns(socket: Seq<char>, path: Seq<char>) -> bool {
    path::same_place(path, socket) || (path::name_of(socket) is Some && path::name_of(socket)
        == path::name_of(path))
}

/// Whether something that happened at any of the paths concerns the socket.
pub fn touches_socket(socket_path: &str, paths: &Vec<String>) -> (touches: bool)
    ensures
        touches == exists|i: int|
            0 <= i < paths@.len() && concerns(socket_path@, #[trigger] paths@[i]@),
{
    let name: Option<String> = path::file_name(socket_path);
    let mut i: usize = 0;
    while i < paths.len()
        invariant
            i <= paths@.len(),
            match name {
                Some(name) => path::name_of(socket_path@) == Some(name@),
                None => path::name_of(socket_path@) is None,
            },
            forall|j: int| 0 <= j < i ==> !concerns(socket_path@, #[trigger] paths@[j]@),
        decreases paths@.len() - i,
    {
        let same_name: bool = match (&name, path::file_name(paths[i].as_str())) {
            (Some(a), Some(b)) => text::same_text(a.as_str(), b.as_str()),
            _ => false,
        };
        if path::same_path(paths[i].as_str(), socket_path) || same_name {
            assert(concerns(socket_path@, paths@[i as int]@));
            return true;
        }
        i = i + 1;
    }
    false
}

proof fn first_sockets_come_first(a: Seq<Seq<char>>, b: Seq<Seq<char>>, i: nat)
    requires
        i <= a.len(),
    ensures
        first_socket(a, i) is Some ==> first_socket(a + b, i) == first_socket(a, i),
        first_socket(a, i) is None ==> first_socket(a + b, i) == first_socket(a + b, a.len()),
    decreases a.len() - i,
{
    if i < a.len() {
        assert((a + b)[i as int] == a[i as int]);
        first_sockets_come_first(a, b, i + 1);
    }
}

proof fn first_paths_come_first(a: Seq<Seq<char>>, b: Seq<Seq<char>>, i: nat)
    requires
        i <= a.len(),
    ensures
        first_path(a, i) is Some ==> first_path(a + b, i) == first_path(a, i),
        first_path(a, i) is None ==> first_path(a + b, i) == first_path(a + b, a.len()),
    decreases a.len() - i,
{
    if i < a.len() {
        assert((a + b)[i as int] == a[i as int]);
        first_paths_come_first(a, b, i + 1);
    }
}

proof fn values_come_after_the_sign(key: Seq<char>, value: Seq<char>)
    requires
        lacks(key, '='),
    ensures
        position(key + seq!['='] + value, '=') == key.len(),
        position(key, '=') == key.len(),
    decreases key.len(),
{
    let whole = key + seq!['='] + value;
    if key.len() > 0 {
        let rest = key.skip(1);
        assert(whole[0] == key[0]);
        assert(whole.skip(1) =~= rest + seq!['='] + value);
        assert forall|i: int| 0 <= i < rest.len() implies #[trigger] rest[i] != '=' by {
            assert(rest[i] == key[i + 1]);
        }
        values_come_after_the_sign(rest, value);
    } else {
        assert(whole[0] == '=');
    }
}

/// A parameter is a path where it is `path`, an equals sign and something; with any other key, or
/// with nothing behind the sign, it is none.
pub proof fn only_paths_are_paths(key: Seq<char>, value: Seq<char>)
    requires
        lacks(key, '='),
    ensures
        value.len() > 0 ==> path_value("path"@ + seq!['='] + value) == Some(value),
        path_value("path"@ + seq!['=']) is None,
        key != "path"@ ==> path_value(key + seq!['='] + value) is None,
        path_value(key) is None,
{
    reveal_strlit("path");
    let none = Seq::<char>::empty();
    values_come_after_the_sign("path"@, value);
    values_come_after_the_sign("path"@, none);
    values_come_after_the_sign(key, value);
    assert("path"@ + seq!['='] + none =~= "path"@ + seq!['=']);
    let param = "path"@ + seq!['='] + value;
    assert(param.take(4) =~= "path"@);
    assert(param.skip(5) =~= value);
    assert((key + seq!['='] + value).take(key.len() as int) =~= key);
}

/// The socket is the path of the first address that is one of a socket and has a path, wherever
/// among the parameters it stands; addresses and parameters without one are passed over.
pub proof fn the_first_socket_is_found(
    before: Seq<char>,
    params: Seq<char>,
    value: Seq<char>,
    more: Seq<char>,
    after: Seq<char>,
)
    requires
        value.len() > 0,
        lacks(value, ',') && lacks(value, ';'),
        lacks(params, ';') && lacks(more, ';'),
        first_path(text::pieces(params, ','), 0) is None,
        socket_of(before) is None,
    ensures
        ({
            let address = "unix:"@ + params + seq![','] + "path"@ + seq!['='] + value + seq![',']
                + more;
            &&& socket_of(address) == Some(value)
            &&& socket_of(before + seq![';'] + address) == Some(value)
            &&& socket_of(before + seq![';'] + address + seq![';'] + after) == Some(value)
        }),
        ({
            let only = "unix:"@ + "path"@ + seq!['='] + value;
            &&& socket_of(only) == Some(value)
            &&& socket_of(before + seq![';'] + only) == Some(value)
        }),
{
    reveal_strlit("unix:");
    reveal_strlit("path");
    let param = "path"@ + seq!['='] + value;
    only_paths_are_paths("path"@, value);
    assert(lacks(param, ',')) by {
        assert forall|i: int| 0 <= i < param.len() implies #[trigger] param[i] != ',' by {
            if i >= 5 {
                assert(param[i] == value[i - 5]);
            }
        }
    }
    assert(lacks(param, ';')) by {
        assert forall|i: int| 0 <= i < param.len() implies #[trigger] param[i] != ';' by {
            if i >= 5 {
                assert(param[i] == value[i - 5]);
            }
        }
    }
    let rest = params + seq![','] + param + seq![','] + more;
    let address = "unix:"@ + params + seq![','] + "path"@ + seq!['='] + value + seq![','] + more;
    assert(address =~= "unix:"@ + rest);
    prefixes_are_what_comes_first(address, "unix:"@, rest);
    pieces_are_parted_by_the_separator(params + seq![','] + param, more, ',');
    pieces_are_parted_by_the_separator(params, param, ',');
    pieces_are_parted_by_the_separator(param, param, ',');
    let front = text::pieces(params, ',');
    let tail = seq![param] + text::pieces(more, ',');
    assert(text::pieces(rest, ',') =~= front + tail);
    first_paths_come_first(front, tail, 0);
    assert((front + tail)[front.len() as int] == param);
    assert(socket_in(address) == Some(value));
    assert(lacks(address, ';')) by {
        assert forall|i: int| 0 <= i < address.len() implies #[trigger] address[i] != ';' by {
            if 5 <= i < 5 + params.len() {
                assert(address[i] == params[i - 5]);
            } else if 6 + params.len() <= i < 6 + params.len() + param.len() {
                assert(address[i] == param[i - 6 - params.len()]);
            } else if 7 + params.len() + param.len() <= i {
                assert(address[i] == more[i - 7 - params.len() - param.len()]);
            }
        }
    }
    one_address_is_enough(before, address, after, value);
    let only = "unix:"@ + "path"@ + seq!['='] + value;
    assert(only =~= "unix:"@ + param);
    prefixes_are_what_comes_first(only, "unix:"@, param);
    let single = text::pieces(param, ',');
    assert(single[0] == param);
    assert(socket_in(only) == Some(value));
    assert(lacks(only, ';')) by {
        assert forall|i: int| 0 <= i < only.len() implies #[trigger] only[i] != ';' by {
            if i >= 5 {
                assert(only[i] == param[i - 5]);
            }
        }
    }
    one_address_is_enough(before, only, after, value);
}

proof fn one_address_is_enough(
    before: Seq<char>,
    address: Seq<char>,
    after: Seq<char>,
    value: Seq<char>,
)
    requires
        lacks(address, ';'),
        socket_in(address) == Some(value),
        socket_of(before) is None,
    ensures
        socket_of(address) == Some(value),
        socket_of(before + seq![';'] + address) == Some(value),
        socket_of(before + seq![';'] + address + seq![';'] + after) == Some(value),
{
    let early = text::pieces(before, ';');
    pieces_are_parted_by_the_separator(address, address, ';');
    pieces_are_parted_by_the_separator(before, address, ';');
    pieces_are_parted_by_the_separator(before + seq![';'] + address, after, ';');
    let one = seq![address];
    assert(one[0] == address);
    let more = one + text::pieces(after, ';');
    first_sockets_come_first(early, one, 0);
    first_sockets_come_first(early, more, 0);
    assert((early + one)[early.len() as int] == address);
    assert((early + more)[early.len() as int] == address);
    assert(early + one + text::pieces(after, ';') =~= early + more);
}

/// An address that is not one of a socket has none.
pub proof fn other_addresses_have_no_socket(address: Seq<char>)
    requires
        lacks(address, ';'),
        forall|rest: Seq<char>| address != #[trigger] ("unix:"@ + rest),
    ensures
        socket_of(address) is None,
{
    pieces_are_parted_by_the_separator(address, address, ';');
    prefixes_are_what_comes_first(address, "unix:"@, address);
    if text::has_prefix(address, "unix:"@) {
        let rest = address.skip("unix:"@.len() as int);
        assert(address == "unix:"@ + rest);
    }
    assert(seq![address][0] == address);
    assert(first_socket(seq![address], 1) is None);
}

/// What happens to the socket concerns it, and so does what happens to anything of its name;
/// nothing else does.
pub proof fn only_the_socket_is_of_concern(
    directory: Seq<char>,
    name: Seq<char>,
    elsewhere: Seq<char>,
    other: Seq<char>,
)
    requires
        directory.len() > 0 && elsewhere.len() > 0,
        fit_for_a_name(name) && fit_for_a_name(other),
        other != name,
    ensures
        concerns(directory + seq!['/'] + name, directory + seq!['/'] + name),
        concerns(directory + seq!['/'] + name, elsewhere + seq!['/'] + name),
        !concerns(directory + seq!['/'] + name, elsewhere + seq!['/'] + other),
{
    directories_are_above_what_is_in_them(directory, name);
    directories_are_above_what_is_in_them(elsewhere, name);
    directories_are_above_what_is_in_them(elsewhere, other);
    names_come_after_the_directory(directory, name);
    names_come_after_the_directory(elsewhere, other);
    let a = path::components_of(directory + seq!['/'] + name);
    let b = path::components_of(elsewhere + seq!['/'] + other);
    assert(a.last() != b.last());
}

} // verus!

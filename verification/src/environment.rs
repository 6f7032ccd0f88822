//! The environment a desktop client needs, and where it is found when this process was
//! started without it.
//!
//! An environment is a list of names and values, in which the last value of a name counts.

use vstd::prelude::*;
use vstd::slice::slice_subrange;
use vstd::string::StringExecFns;
use vstd::utf8::{decode_utf8, valid_utf8};
use crate::input::{joined_path, path_join};
use crate::numerals::{decimal, decimal_reads_back, digits_are_visible, parse_unsigned, unsigned_of};
use crate::text::{
    after_prefix, blank, cat, containing_is_standing_between, equal_ignoring_case, is_blank,
    is_filled, lines, lines_of, pieces_meet_at_a_separator, same, same_ignoring_case, split,
    split_at_any, starts_with, texts, texts_push, trim, trim_keeps, trim_start, trimmed,
    unseparated_text_is_one_piece, utf8,
};

verus! {

/// The names and values of an environment.
pub open spec fn entries(env: Seq<(String, String)>) -> Seq<(Seq<char>, Seq<char>)> {
    env.map_values(|entry: (String, String)| (entry.0@, entry.1@))
}

proof fn entries_push(env: Seq<(String, String)>, entry: (String, String))
    ensures
        entries(env.push(entry)) == entries(env).push((entry.0@, entry.1@)),
{
    assert(entries(env.push(entry)) =~= entries(env).push((entry.0@, entry.1@)));
}

/// The value of a name, where it has one.
pub open spec fn lookup(env: Seq<(Seq<char>, Seq<char>)>, name: Seq<char>) -> Option<Seq<char>>
    decreases env.len(),
{
    if env.len() == 0 {
        None
    } else if env.last().0 == name {
        Some(env.last().1)
    } else {
        lookup(env.drop_last(), name)
    }
}

/// The value of a name, where it has one.
pub fn value_of<'a>(env: &'a [(String, String)], name: &str) -> (r: Option<&'a str>)
    ensures
        crate::elements::str_of(r) == lookup(entries(env@), name@),
{
    let ghost all = entries(env@);
    let mut i: usize = env.len();
    assert(all.take(i as int) =~= all);
    while i > 0
        invariant
            i <= env@.len(),
            all == entries(env@),
            lookup(all, name@) == lookup(all.take(i as int), name@),
        decreases i,
    {
        i = i - 1;
        assert(all.take(i + 1).drop_last() =~= all.take(i as int));
        assert(all.take(i + 1).last() == (env@[i as int].0@, env@[i as int].1@));
        if same(&env[i].0, name) {
            return Some(env[i].1.as_str());
        }
    }
    assert(all.take(0) =~= Seq::empty());
    None
}

/// What stands between the separators, in order.
pub open spec fn pieces(bytes: Seq<u8>, sep: u8) -> Seq<Seq<u8>>
    decreases bytes.len(),
{
    if bytes.len() == 0 {
        seq![Seq::empty()]
    } else {
        let before = pieces(bytes.drop_last(), sep);
        if bytes.last() == sep {
            before.push(Seq::empty())
        } else {
            before.drop_last().push(before.last().push(bytes.last()))
        }
    }
}

/// The position of the first equals sign.
pub open spec fn equals_sign(bytes: Seq<u8>) -> Option<int>
    decreases bytes.len(),
{
    if bytes.len() == 0 {
        None
    } else {
        match equals_sign(bytes.drop_last()) {
            Some(k) => Some(k),
            None => if bytes.last() == 0x3d {
                Some(bytes.len() - 1)
            } else {
                None
            },
        }
    }
}

/// The name and value that bytes hold, with an equals sign between them, where both are
/// text.
pub open spec fn entry_in(bytes: Seq<u8>) -> Option<(Seq<char>, Seq<char>)> {
    match equals_sign(bytes) {
        Some(k) => if valid_utf8(bytes.take(k)) && valid_utf8(bytes.skip(k + 1)) {
            Some((decode_utf8(bytes.take(k)), decode_utf8(bytes.skip(k + 1))))
        } else {
            None
        },
        None => None,
    }
}

/// The names and values that a list of bytes holds.
pub open spec fn entries_in(list: Seq<Seq<u8>>) -> Seq<(Seq<char>, Seq<char>)>
    decreases list.len(),
{
    if list.len() == 0 {
        seq![]
    } else {
        match entry_in(list.last()) {
            Some(entry) => entries_in(list.drop_last()).push(entry),
            None => entries_in(list.drop_last()),
        }
    }
}

fn find_equals(bytes: &[u8]) -> (r: Option<usize>)
    ensures
        match r {
            Some(k) => equals_sign(bytes@) == Some(k as int) && k < bytes@.len(),
            None => equals_sign(bytes@) is None,
        },
{
    let mut found: Option<usize> = None;
    for i in 0..bytes.len()
        invariant
            match found {
                Some(k) => equals_sign(bytes@.take(i as int)) == Some(k as int) && k < i,
                None => equals_sign(bytes@.take(i as int)) is None,
            },
    {
        assert(bytes@.take(i + 1).drop_last() =~= bytes@.take(i as int));
        if found.is_none() && bytes[i] == 0x3d {
            found = Some(i);
        }
    }
    assert(bytes@.take(bytes@.len() as int) =~= bytes@);
    found
}

fn read_entry(bytes: &[u8]) -> (r: Option<(String, String)>)
    ensures
        match r {
            Some(entry) => entry_in(bytes@) == Some((entry.0@, entry.1@)),
            None => entry_in(bytes@) is None,
        },
{
    match find_equals(bytes) {
        Some(k) => {
            assert(bytes@.subrange(0, k as int) =~= bytes@.take(k as int));
            assert(bytes@.subrange(k + 1, bytes@.len() as int) =~= bytes@.skip(k + 1));
            let total: usize = bytes.len();
            match (utf8(slice_subrange(bytes, 0, k)), utf8(slice_subrange(bytes, k + 1, total))) {
                (Some(name), Some(value)) => Some((name, value)),
                _ => None,
            }
        },
        None => None,
    }
}

/// The environment in some bytes, with a separator between the entries.
fn parse_separated(bytes: &[u8], sep: u8) -> (r: Vec<(String, String)>)
    ensures
        entries(r@) == entries_in(pieces(bytes@, sep)),
{
    let mut env: Vec<(String, String)> = Vec::new();
    let mut start: usize = 0;
    let ghost mut done: Seq<Seq<u8>> = seq![];
    assert(entries(env@) =~= seq![]);
    assert(bytes@.subrange(0, 0) =~= Seq::<u8>::empty());
    assert(done.push(bytes@.subrange(0, 0)) =~= pieces(bytes@.take(0), sep));
    for i in 0..bytes.len()
        invariant
            start <= i,
            pieces(bytes@.take(i as int), sep) == done.push(bytes@.subrange(start as int, i as int)),
            entries(env@) == entries_in(done),
    {
        let ghost part = bytes@.take(i + 1);
        let ghost piece = bytes@.subrange(start as int, i as int);
        assert(part.drop_last() =~= bytes@.take(i as int));
        assert(part.last() == bytes@[i as int]);
        if bytes[i] == sep {
            let entry = read_entry(slice_subrange(bytes, start, i));
            proof {
                assert(done.push(piece).drop_last() =~= done);
                done = done.push(piece);
            }
            if let Some(entry) = entry {
                proof {
                    entries_push(env@, entry);
                }
                env.push(entry);
            }
            start = i + 1;
            assert(bytes@.subrange(i + 1, i + 1) =~= Seq::<u8>::empty());
        } else {
            assert(done.push(piece).drop_last() =~= done);
            assert(bytes@.subrange(start as int, i + 1) =~= piece.push(bytes@[i as int]));
        }
    }
    let ghost piece = bytes@.subrange(start as int, bytes@.len() as int);
    assert(bytes@.take(bytes@.len() as int) =~= bytes@);
    assert(done.push(piece).drop_last() =~= done);
    if let Some(entry) = read_entry(slice_subrange(bytes, start, bytes.len())) {
        proof {
            entries_push(env@, entry);
        }
        env.push(entry);
    }
    env
}

/// The environment of a process, as the system shows it: entries with a zero byte between
/// them.
pub fn parse_environ(bytes: &[u8]) -> (r: Vec<(String, String)>)
    ensures
        entries(r@) == entries_in(pieces(bytes@, 0)),
{
    parse_separated(bytes, 0)
}

/// The environment of the service manager, as it prints it: an entry a line.
pub fn parse_line_environment(bytes: &[u8]) -> (r: Vec<(String, String)>)
    ensures
        entries(r@) == entries_in(pieces(bytes@, 0x0a)),
{
    parse_separated(bytes, 0x0a)
}

/// The variables a desktop client needs.
pub open spec fn desktop_keys() -> Seq<Seq<char>> {
    seq![
        "DBUS_SESSION_BUS_ADDRESS"@,
        "DESKTOP_SESSION"@,
        "DISPLAY"@,
        "HYPRLAND_INSTANCE_SIGNATURE"@,
        "XAUTHORITY"@,
        "YDOTOOL_SOCKET"@,
        "XDG_SESSION_DESKTOP"@,
        "WAYLAND_DISPLAY"@,
        "XDG_CURRENT_DESKTOP"@,
        "XDG_RUNTIME_DIR"@,
        "XDG_SESSION_TYPE"@,
    ]
}

/// The variables a desktop client needs.
pub fn desktop_env_keys() -> (r: Vec<String>)
    ensures
        texts(r@) == desktop_keys(),
{
    let keys = vec![
        "DBUS_SESSION_BUS_ADDRESS".to_owned(),
        "DESKTOP_SESSION".to_owned(),
        "DISPLAY".to_owned(),
        "HYPRLAND_INSTANCE_SIGNATURE".to_owned(),
        "XAUTHORITY".to_owned(),
        "YDOTOOL_SOCKET".to_owned(),
        "XDG_SESSION_DESKTOP".to_owned(),
        "WAYLAND_DISPLAY".to_owned(),
        "XDG_CURRENT_DESKTOP".to_owned(),
        "XDG_RUNTIME_DIR".to_owned(),
        "XDG_SESSION_TYPE".to_owned(),
    ];
    assert(texts(keys@) =~= desktop_keys());
    keys
}

/// Whether every variable a desktop client needs is set.
pub fn desktop_env_is_complete(env: &[(String, String)]) -> (r: bool)
    ensures
        r == (forall|i: int|
            0 <= i < desktop_keys().len() ==> is_filled(
                lookup(entries(env@), #[trigger] desktop_keys()[i]),
            )),
{
    let keys = desktop_env_keys();
    for i in 0..keys.len()
        invariant
            texts(keys@) == desktop_keys(),
            forall|k: int|
                0 <= k < i ==> is_filled(lookup(entries(env@), #[trigger] desktop_keys()[k])),
    {
        assert(desktop_keys()[i as int] == keys@[i as int]@);
        if !is_set(env, &keys[i]) {
            return false;
        }
    }
    true
}

fn is_set(env: &[(String, String)], name: &str) -> (r: bool)
    ensures
        r == is_filled(lookup(entries(env@), name@)),
{
    match value_of(env, name) {
        Some(value) => !blank(value),
        None => false,
    }
}

/// Whether an environment is that of an X11 session of its own. A nested X11 desktop can
/// share a user manager with a Wayland host: its complete process-local session is
/// preserved instead of grafting the host's Wayland display onto it.
pub open spec fn is_native_x11(env: Seq<(Seq<char>, Seq<char>)>) -> bool {
    &&& lookup(env, "XDG_SESSION_TYPE"@) is Some
    &&& same_ignoring_case(trim(lookup(env, "XDG_SESSION_TYPE"@)->0), "x11"@)
    &&& is_filled(lookup(env, "DISPLAY"@))
    &&& !is_filled(lookup(env, "WAYLAND_DISPLAY"@))
}

/// The value a variable is given from another environment, where it is given one: never
/// where it is set already.
pub open spec fn update_for(
    name: Seq<char>,
    current: Seq<(Seq<char>, Seq<char>)>,
    source: Seq<(Seq<char>, Seq<char>)>,
) -> Option<Seq<char>> {
    if is_filled(lookup(current, name)) || (is_native_x11(current) && name == "WAYLAND_DISPLAY"@) {
        None
    } else if is_filled(lookup(source, name)) {
        lookup(source, name)
    } else {
        None
    }
}

/// The variables that are given values from another environment, and the values.
pub open spec fn updates(
    names: Seq<Seq<char>>,
    current: Seq<(Seq<char>, Seq<char>)>,
    source: Seq<(Seq<char>, Seq<char>)>,
) -> Seq<(Seq<char>, Seq<char>)>
    decreases names.len(),
{
    if names.len() == 0 {
        seq![]
    } else {
        match update_for(names.last(), current, source) {
            Some(value) => updates(names.drop_last(), current, source).push((names.last(), value)),
            None => updates(names.drop_last(), current, source),
        }
    }
}

/// The variables a desktop client needs that are given values from another environment,
/// and the values.
pub fn desktop_env_hydration_updates(current_env: &[(String, String)], source_env: &[(String, String)]) -> (r:
    Vec<(String, String)>)
    ensures
        entries(r@) == updates(desktop_keys(), entries(current_env@), entries(source_env@)),
{
    let ghost current = entries(current_env@);
    let ghost source = entries(source_env@);
    let names_x11 = match value_of(current_env, "XDG_SESSION_TYPE") {
        Some(value) => equal_ignoring_case(&trimmed(value), "x11"),
        None => false,
    };
    let native_x11 = names_x11 && is_set(current_env, "DISPLAY") && !is_set(
        current_env,
        "WAYLAND_DISPLAY",
    );
    let keys = desktop_env_keys();
    let ghost names = desktop_keys();
    let mut found: Vec<(String, String)> = Vec::new();
    assert(names.take(0) =~= Seq::empty());
    assert(entries(found@) =~= seq![]);
    for i in 0..keys.len()
        invariant
            texts(keys@) == names,
            current == entries(current_env@),
            source == entries(source_env@),
            native_x11 == is_native_x11(current),
            entries(found@) == updates(names.take(i as int), current, source),
    {
        assert(names.take(i + 1).drop_last() =~= names.take(i as int));
        assert(names.take(i + 1).last() == keys@[i as int]@);
        let kept = is_set(current_env, &keys[i]) || (native_x11 && same(
            &keys[i],
            "WAYLAND_DISPLAY",
        ));
        if !kept {
            if let Some(value) = value_of(source_env, &keys[i]) {
                if !blank(value) {
                    let entry = (keys[i].clone(), value.to_owned());
                    proof {
                        entries_push(found@, entry);
                    }
                    found.push(entry);
                }
            }
        }
    }
    assert(names.take(keys@.len() as int) =~= names);
    found
}

/// What an environment is given from others, one after the other: what one of them has set
/// is set for the next.
pub open spec fn gathered(
    current: Seq<(Seq<char>, Seq<char>)>,
    sources: Seq<Seq<(Seq<char>, Seq<char>)>>,
) -> Seq<(Seq<char>, Seq<char>)>
    decreases sources.len(),
{
    if sources.len() == 0 {
        seq![]
    } else {
        let before = gathered(current, sources.drop_last());
        before + updates(desktop_keys(), current + before, sources.last())
    }
}

/// The entries of some environments.
pub open spec fn all_entries(sources: Seq<Vec<(String, String)>>) -> Seq<
    Seq<(Seq<char>, Seq<char>)>,
> {
    sources.map_values(|source: Vec<(String, String)>| entries(source@))
}

/// The desktop variables a bus client needs, where this process was started without them:
/// from a systemd user service, from a shell that inherited nothing, or from a client that
/// spawns with a bare environment. They are taken from the environments given, in order,
/// which is that of the processes above this one and then that of the user's manager.
pub fn hydrate_session_bus_env(
    current_env: &[(String, String)],
    sources: &[Vec<(String, String)>],
) -> (r: Vec<(String, String)>)
    ensures
        entries(r@) == gathered(entries(current_env@), all_entries(sources@)),
{
    let ghost current = entries(current_env@);
    let ghost all = all_entries(sources@);
    let mut env = copy_entries(current_env);
    let mut found: Vec<(String, String)> = Vec::new();
    assert(entries(found@) =~= seq![]);
    assert(all.take(0) =~= seq![]);
    assert(entries(env@) =~= current + entries(found@));
    for i in 0..sources.len()
        invariant
            current == entries(current_env@),
            all == all_entries(sources@),
            entries(found@) == gathered(current, all.take(i as int)),
            entries(env@) == current + entries(found@),
    {
        let ghost before = entries(found@);
        assert(all.take(i + 1).drop_last() =~= all.take(i as int));
        assert(all.take(i + 1).last() == entries(sources@[i as int]@));
        let mut more = desktop_env_hydration_updates(&env, &sources[i]);
        let mut again = copy_entries(&more);
        let ghost given = entries(more@);
        let ghost old_found = found@;
        let ghost old_env = env@;
        found.append(&mut more);
        env.append(&mut again);
        assert(entries(found@) =~= before + given);
        assert(entries(env@) =~= entries(old_env) + given);
        assert(entries(env@) =~= current + entries(found@));
    }
    assert(all.take(sources@.len() as int) =~= all);
    found
}

fn copy_entries(env: &[(String, String)]) -> (r: Vec<(String, String)>)
    ensures
        entries(r@) == entries(env@),
{
    let mut copy: Vec<(String, String)> = Vec::new();
    assert(entries(copy@) =~= entries(env@).take(0));
    for i in 0..env.len()
        invariant
            entries(copy@) == entries(env@).take(i as int),
    {
        let entry = (env[i].0.clone(), env[i].1.clone());
        proof {
            entries_push(copy@, entry);
        }
        copy.push(entry);
        assert(entries(env@).take(i + 1) =~= entries(env@).take(i as int).push(
            entries(env@)[i as int],
        ));
    }
    assert(entries(env@).take(env@.len() as int) =~= entries(env@));
    copy
}

/// Once nothing is missing, nothing more is given: the environments after that are as good
/// as not there.
pub proof fn a_complete_environment_gathers_nothing(
    current: Seq<(Seq<char>, Seq<char>)>,
    sources: Seq<Seq<(Seq<char>, Seq<char>)>>,
)
    requires
        forall|i: int|
            0 <= i < desktop_keys().len() ==> is_filled(
                lookup(current, #[trigger] desktop_keys()[i]),
            ),
    ensures
        gathered(current, sources).len() == 0,
    decreases sources.len(),
{
    if sources.len() > 0 {
        a_complete_environment_gathers_nothing(current, sources.drop_last());
        let before = gathered(current, sources.drop_last());
        assert(current + before =~= current);
        nothing_is_due(desktop_keys(), current, sources.last());
    }
}

proof fn nothing_is_due(
    names: Seq<Seq<char>>,
    current: Seq<(Seq<char>, Seq<char>)>,
    source: Seq<(Seq<char>, Seq<char>)>,
)
    requires
        forall|i: int| 0 <= i < names.len() ==> is_filled(lookup(current, #[trigger] names[i])),
    ensures
        updates(names, current, source).len() == 0,
    decreases names.len(),
{
    if names.len() > 0 {
        assert(is_filled(lookup(current, names[names.len() - 1])));
        assert forall|i: int| 0 <= i < names.drop_last().len() implies is_filled(
            lookup(current, #[trigger] names.drop_last()[i]),
        ) by {
            assert(names.drop_last()[i] == names[i]);
        }
        nothing_is_due(names.drop_last(), current, source);
    }
}

/// What is set is left alone: a variable is given a value only where it had none, and only
/// one that another environment has.
pub proof fn hydration_only_fills_gaps(
    names: Seq<Seq<char>>,
    current: Seq<(Seq<char>, Seq<char>)>,
    source: Seq<(Seq<char>, Seq<char>)>,
    i: int,
)
    requires
        0 <= i < updates(names, current, source).len(),
    ensures
        !is_filled(lookup(current, updates(names, current, source)[i].0)),
        lookup(source, updates(names, current, source)[i].0) == Some(
            updates(names, current, source)[i].1,
        ),
        is_filled(Some(updates(names, current, source)[i].1)),
    decreases names.len(),
{
    if names.len() > 0 {
        let before = updates(names.drop_last(), current, source);
        if i < before.len() {
            hydration_only_fills_gaps(names.drop_last(), current, source, i);
        }
    }
}

/// A session of X11's own keeps its display: no Wayland display is given to it.
pub proof fn native_x11_gets_no_wayland_display(
    names: Seq<Seq<char>>,
    current: Seq<(Seq<char>, Seq<char>)>,
    source: Seq<(Seq<char>, Seq<char>)>,
    i: int,
)
    requires
        is_native_x11(current),
        0 <= i < updates(names, current, source).len(),
    ensures
        updates(names, current, source)[i].0 != "WAYLAND_DISPLAY"@,
    decreases names.len(),
{
    if names.len() > 0 {
        let before = updates(names.drop_last(), current, source);
        if i < before.len() {
            native_x11_gets_no_wayland_display(names.drop_last(), current, source, i);
        }
    }
}

/// Whether an environment is that of a graphical session: its display, or else its Wayland
/// display, is named.
pub fn process_env_has_graphical_display(env: &[(String, String)]) -> (r: bool)
    ensures
        r == is_filled(
            match lookup(entries(env@), "DISPLAY"@) {
                Some(display) => Some(display),
                None => lookup(entries(env@), "WAYLAND_DISPLAY"@),
            },
        ),
{
    let display = match value_of(env, "DISPLAY") {
        Some(display) => Some(display),
        None => value_of(env, "WAYLAND_DISPLAY"),
    };
    match display {
        Some(display) => !blank(display),
        None => false,
    }
}

/// The parent that a line of a process's status names, where it names one.
pub open spec fn parent_in(line: Seq<char>) -> Option<int> {
    if starts_with(line, "PPid:"@) {
        parse_unsigned(trim(line.skip("PPid:"@.len() as int)), 10, u32::MAX as int)
    } else {
        None
    }
}

/// The parent that the first line to name one names.
pub open spec fn first_parent(all: Seq<Seq<char>>) -> Option<int>
    decreases all.len(),
{
    if all.len() == 0 {
        None
    } else {
        match first_parent(all.drop_last()) {
            Some(pid) => Some(pid),
            None => parent_in(all.last()),
        }
    }
}

/// The parent that a process's status names.
pub fn parse_parent_pid(status: &str) -> (r: Option<u32>)
    ensures
        match r {
            Some(pid) => first_parent(lines(status@)) == Some(pid as int),
            None => first_parent(lines(status@)) is None,
        },
{
    let all = lines_of(status);
    let ghost list = lines(status@);
    let mut found: Option<u32> = None;
    assert(list.take(0) =~= Seq::empty());
    for i in 0..all.len()
        invariant
            texts(all@) == list,
            match found {
                Some(pid) => first_parent(list.take(i as int)) == Some(pid as int),
                None => first_parent(list.take(i as int)) is None,
            },
    {
        assert(list.take(i + 1).drop_last() =~= list.take(i as int));
        assert(list.take(i + 1).last() == all@[i as int]@);
        if found.is_none() {
            if let Some(rest) = after_prefix(&all[i], "PPid:") {
                if let Some(pid) = unsigned_of(&trimmed(&rest), 10, u32::MAX as u64) {
                    found = Some(pid as u32);
                }
            }
        }
    }
    assert(list.take(all@.len() as int) =~= list);
    found
}

/// How many ancestors are asked for their environment.
pub const ANCESTORS_ASKED: u32 = 8;

/// The ancestor that is asked next, after so many: none after the first process of the
/// system, and none after the last of so many.
pub fn next_ancestor(asked: u32, parent: Option<u32>) -> (r: Option<u32>)
    ensures
        r == if asked < ANCESTORS_ASKED && parent is Some && parent->0 > 1 {
            parent
        } else {
            None
        },
{
    if asked >= ANCESTORS_ASKED {
        return None;
    }
    match parent {
        Some(pid) => if pid > 1 {
            Some(pid)
        } else {
            None
        },
        None => None,
    }
}

/// The pieces of a path that count: no empty one, and no `.` but at its beginning.
pub open spec fn counted_parts(all: Seq<Seq<char>>) -> Seq<Seq<char>>
    decreases all.len(),
{
    if all.len() == 0 {
        seq![]
    } else if all.last().len() == 0 || (all.last() == "."@ && all.len() > 1) {
        counted_parts(all.drop_last())
    } else {
        counted_parts(all.drop_last()).push(all.last())
    }
}

/// Whether two texts name one path: both from the root or neither, through the same pieces.
pub open spec fn same_path(a: Seq<char>, b: Seq<char>) -> bool {
    &&& (a.len() > 0 && a[0] == '/') == (b.len() > 0 && b[0] == '/')
    &&& counted_parts(split(a, seq!['/'])) == counted_parts(split(b, seq!['/']))
}

fn path_parts(path: &str) -> (r: Vec<String>)
    ensures
        texts(r@) == counted_parts(split(path@, seq!['/'])),
{
    broadcast use texts_push;

    let seps: [char; 1] = ['/'];
    assert(seps@ =~= seq!['/']);
    let all = split_at_any(path, &seps);
    let ghost list = split(path@, seq!['/']);
    let mut parts: Vec<String> = Vec::new();
    assert(list.take(0) =~= Seq::empty());
    assert(texts(parts@) =~= seq![]);
    for i in 0..all.len()
        invariant
            texts(all@) == list,
            texts(parts@) == counted_parts(list.take(i as int)),
    {
        broadcast use texts_push;

        assert(list.take(i + 1).drop_last() =~= list.take(i as int));
        assert(list.take(i + 1).last() == all@[i as int]@);
        if !all[i].as_str().is_empty() && !(same(&all[i], ".") && i > 0) {
            parts.push(all[i].clone());
        }
    }
    assert(list.take(all@.len() as int) =~= list);
    parts
}

fn same_texts(a: &[String], b: &[String]) -> (r: bool)
    ensures
        r == (texts(a@) == texts(b@)),
{
    if a.len() != b.len() {
        assert(texts(a@).len() != texts(b@).len());
        return false;
    }
    for i in 0..a.len()
        invariant
            a@.len() == b@.len(),
            forall|k: int| 0 <= k < i ==> (#[trigger] a@[k])@ == b@[k]@,
    {
        if !same(&a[i], &b[i]) {
            assert(texts(a@)[i as int] != texts(b@)[i as int]);
            return false;
        }
    }
    assert(texts(a@) =~= texts(b@));
    true
}

/// Whether two texts name one path.
pub fn paths_agree(a: &str, b: &str) -> (r: bool)
    ensures
        r == same_path(a@, b@),
{
    let from_root_a = starts_at_root(a);
    let from_root_b = starts_at_root(b);
    from_root_a == from_root_b && same_texts(&path_parts(a), &path_parts(b))
}

fn starts_at_root(path: &str) -> (r: bool)
    ensures
        r == (path@.len() > 0 && path@[0] == '/'),
{
    let chars = crate::text::chars_of(path);
    chars.len() > 0 && chars[0] == '/'
}

/// Whether a path is in a list.
pub open spec fn lists_path(list: Seq<Seq<char>>, path: Seq<char>) -> bool {
    exists|i: int| 0 <= i < list.len() && same_path(#[trigger] list[i], path)
}

fn path_is_listed(list: &[String], path: &str) -> (r: bool)
    ensures
        r == lists_path(texts(list@), path@),
{
    for i in 0..list.len()
        invariant
            forall|k: int| 0 <= k < i ==> !same_path(#[trigger] texts(list@)[k], path@),
    {
        assert(texts(list@)[i as int] == list@[i as int]@);
        if paths_agree(&list[i], path) {
            return true;
        }
    }
    false
}

/// The candidates that are missing from a list, in order.
pub open spec fn missing(current: Seq<Seq<char>>, candidates: Seq<Seq<char>>) -> Seq<Seq<char>>
    decreases candidates.len(),
{
    if candidates.len() == 0 {
        seq![]
    } else if lists_path(current, candidates.last()) {
        missing(current, candidates.drop_last())
    } else {
        missing(current, candidates.drop_last()).push(candidates.last())
    }
}

/// Which of `candidates` are missing from `current`, in the order given.
///
/// Empty means the search path already carries them and must not be rewritten.
pub fn command_path_additions(current: &[String], candidates: &[String]) -> (r: Vec<String>)
    ensures
        texts(r@) == missing(texts(current@), texts(candidates@)),
{
    broadcast use texts_push;

    let ghost list = texts(candidates@);
    let mut found: Vec<String> = Vec::new();
    assert(list.take(0) =~= Seq::empty());
    assert(texts(found@) =~= seq![]);
    for i in 0..candidates.len()
        invariant
            list == texts(candidates@),
            texts(found@) == missing(texts(current@), list.take(i as int)),
    {
        broadcast use texts_push;

        assert(list.take(i + 1).drop_last() =~= list.take(i as int));
        assert(list.take(i + 1).last() == candidates@[i as int]@);
        if !path_is_listed(current, &candidates[i]) {
            found.push(candidates[i].clone());
        }
    }
    assert(list.take(candidates@.len() as int) =~= list);
    found
}

/// Once what is missing was added, every candidate is listed.
proof fn additions_list_every_candidate(
    current: Seq<Seq<char>>,
    candidates: Seq<Seq<char>>,
    more: Seq<Seq<char>>,
    k: int,
)
    requires
        0 <= k < candidates.len(),
        forall|i: int|
            0 <= i < missing(current, candidates).len() ==> more.contains(
                #[trigger] missing(current, candidates)[i],
            ),
    ensures
        lists_path(current + more, candidates[k]),
    decreases candidates.len(),
{
    let all = current + more;
    let found = missing(current, candidates);
    let before = missing(current, candidates.drop_last());
    if k < candidates.len() - 1 {
        assert forall|i: int| 0 <= i < before.len() implies more.contains(#[trigger] before[i]) by {
            assert(found[i] == before[i]);
        }
        additions_list_every_candidate(current, candidates.drop_last(), more, k);
        assert(candidates.drop_last()[k] == candidates[k]);
    } else if lists_path(current, candidates[k]) {
        let i = choose|i: int| 0 <= i < current.len() && same_path(#[trigger] current[i], candidates[k]);
        assert(all[i] == current[i]);
    } else {
        assert(found[found.len() - 1] == candidates[k]);
        assert(more.contains(candidates[k]));
        let i = choose|i: int| 0 <= i < more.len() && more[i] == candidates[k];
        assert(all[current.len() + i] == candidates[k]);
    }
}

/// Nothing is left to add once what was missing was added: the search path is rewritten once.
pub proof fn adding_paths_leaves_none_to_add(current: Seq<Seq<char>>, candidates: Seq<Seq<char>>)
    ensures
        missing(current + missing(current, candidates), candidates) == Seq::<Seq<char>>::empty(),
{
    let more = missing(current, candidates);
    assert forall|k: int| 0 <= k < candidates.len() implies lists_path(
        current + more,
        #[trigger] candidates[k],
    ) by {
        additions_list_every_candidate(current, candidates, more, k);
    }
    nothing_is_missing(current + more, candidates);
}

proof fn nothing_is_missing(current: Seq<Seq<char>>, candidates: Seq<Seq<char>>)
    requires
        forall|k: int| 0 <= k < candidates.len() ==> lists_path(current, #[trigger] candidates[k]),
    ensures
        missing(current, candidates) == Seq::<Seq<char>>::empty(),
    decreases candidates.len(),
{
    if candidates.len() > 0 {
        let rest = candidates.drop_last();
        assert forall|k: int| 0 <= k < rest.len() implies lists_path(current, #[trigger] rest[k]) by {
            assert(rest[k] == candidates[k]);
        }
        nothing_is_missing(current, rest);
        assert(lists_path(current, candidates[candidates.len() - 1]));
    }
}

/// A search path that carries every candidate is not rewritten, and what is added to one
/// that does not was not on it.
pub proof fn only_missing_paths_are_added(current: Seq<Seq<char>>, candidates: Seq<Seq<char>>)
    ensures
        forall|i: int|
            0 <= i < missing(current, candidates).len() ==> !lists_path(
                current,
                #[trigger] missing(current, candidates)[i],
            ) && candidates.contains(missing(current, candidates)[i]),
        (forall|i: int| 0 <= i < candidates.len() ==> lists_path(current, #[trigger] candidates[i]))
            ==> missing(current, candidates).len() == 0,
    decreases candidates.len(),
{
    if candidates.len() > 0 {
        let rest = candidates.drop_last();
        only_missing_paths_are_added(current, rest);
        assert forall|i: int| 0 <= i < missing(current, candidates).len() implies !lists_path(
            current,
            #[trigger] missing(current, candidates)[i],
        ) && candidates.contains(missing(current, candidates)[i]) by {
            if i < missing(current, rest).len() {
                let added = missing(current, rest)[i];
                assert(rest.contains(added));
                let k = choose|k: int| 0 <= k < rest.len() && rest[k] == added;
                assert(candidates[k] == added);
            } else {
                assert(candidates[candidates.len() - 1] == candidates.last());
            }
        }
        if forall|i: int|
            0 <= i < candidates.len() ==> lists_path(current, #[trigger] candidates[i]) {
            assert forall|i: int| 0 <= i < rest.len() implies lists_path(
                current,
                #[trigger] rest[i],
            ) by {
                assert(rest[i] == candidates[i]);
            }
            assert(lists_path(current, candidates[candidates.len() - 1]));
        }
    }
}

/// The value of a variable, which counts as unset where it is blank.
pub fn env_var(value: Option<String>) -> (r: Option<String>)
    ensures
        r == if is_filled(crate::text::text_of(value)) {
            value
        } else {
            None
        },
{
    match value {
        Some(value) => if blank(&value) {
            None
        } else {
            Some(value)
        },
        None => None,
    }
}

/// The runtime directory: the one the environment names, or else the one of the user's
/// number.
pub open spec fn runtime_dir(named: Option<Seq<char>>, uid: Option<Seq<char>>) -> Option<Seq<char>> {
    if is_filled(named) {
        named
    } else {
        match uid {
            Some(uid) => Some("/run/user/"@ + uid),
            None => None,
        }
    }
}

/// The runtime directory.
pub fn xdg_runtime_dir(named: Option<&str>, uid: Option<&str>) -> (r: Option<String>)
    ensures
        crate::text::text_of(r) == runtime_dir(
            crate::elements::str_of(named),
            crate::elements::str_of(uid),
        ),
{
    if let Some(dir) = named {
        if !blank(dir) {
            return Some(dir.to_owned());
        }
    }
    match uid {
        Some(uid) => Some(cat("/run/user/", uid)),
        None => None,
    }
}

/// The socket of the session bus under a runtime directory.
pub fn bus_socket(runtime: &str) -> (r: String)
    ensures
        r@ == path_join(runtime@, "bus"@),
{
    joined_path(runtime, "bus")
}

/// The address of the session bus: the one the environment names, or else the one of the
/// socket under the runtime directory, where that is there.
pub fn dbus_session_address(named: Option<&str>, runtime: Option<&str>, socket_exists: bool) -> (r:
    Option<String>)
    ensures
        crate::text::text_of(r) == if is_filled(crate::elements::str_of(named)) {
            crate::elements::str_of(named)
        } else if runtime is Some && socket_exists {
            Some("unix:path="@ + path_join(runtime->0@, "bus"@))
        } else {
            None
        },
{
    if let Some(address) = named {
        if !blank(address) {
            return Some(address.to_owned());
        }
    }
    match runtime {
        Some(runtime) => if socket_exists {
            Some(cat("unix:path=", &bus_socket(runtime)))
        } else {
            None
        },
        None => None,
    }
}

/// The last value of a name counts: an entry put behind an environment is what its name has,
/// and changes what no other name has.
pub proof fn the_last_value_of_a_name_counts(
    env: Seq<(Seq<char>, Seq<char>)>,
    name: Seq<char>,
    value: Seq<char>,
    other: Seq<char>,
)
    ensures
        lookup(env.push((name, value)), name) == Some(value),
        other != name ==> lookup(env.push((name, value)), other) == lookup(env, other),
        lookup(Seq::empty(), name) is None,
{
    assert(env.push((name, value)).drop_last() =~= env);
}

proof fn pieces_are_never_none(bytes: Seq<u8>, sep: u8)
    ensures
        pieces(bytes, sep).len() > 0,
    decreases bytes.len(),
{
    if bytes.len() > 0 {
        pieces_are_never_none(bytes.drop_last(), sep);
    }
}

/// Bytes without a separator in them are one piece, and a separator ends the pieces before it
/// and starts those after it.
pub proof fn pieces_part_at_the_separator(a: Seq<u8>, b: Seq<u8>, sep: u8)
    ensures
        (forall|i: int| 0 <= i < a.len() ==> #[trigger] a[i] != sep) ==> pieces(a, sep) == seq![a],
        pieces(a.push(sep) + b, sep) == pieces(a, sep) + pieces(b, sep),
    decreases a.len() + b.len(),
{
    if forall|i: int| 0 <= i < a.len() ==> #[trigger] a[i] != sep {
        if a.len() > 0 {
            let rest = a.drop_last();
            assert forall|i: int| 0 <= i < rest.len() implies #[trigger] rest[i] != sep by {
                assert(rest[i] == a[i]);
            }
            pieces_part_at_the_separator(rest, Seq::empty(), sep);
            assert(a[a.len() - 1] != sep);
            assert(rest.push(a.last()) =~= a);
            assert(seq![rest].drop_last().push(a) =~= seq![a]);
        } else {
            assert(a =~= Seq::empty());
        }
    }
    let whole = a.push(sep) + b;
    pieces_are_never_none(a, sep);
    pieces_are_never_none(b, sep);
    if b.len() == 0 {
        assert(whole =~= a.push(sep));
        assert(whole.drop_last() =~= a);
        assert(pieces(a, sep) + pieces(b, sep) =~= pieces(a, sep).push(Seq::empty()));
    } else {
        let rest = b.drop_last();
        pieces_part_at_the_separator(a, rest, sep);
        pieces_are_never_none(rest, sep);
        assert(whole.drop_last() =~= a.push(sep) + rest);
        let before = pieces(a, sep) + pieces(rest, sep);
        assert(before.last() == pieces(rest, sep).last());
        assert(before.drop_last() =~= pieces(a, sep) + pieces(rest, sep).drop_last());
        assert(pieces(whole, sep) =~= pieces(a, sep) + pieces(b, sep));
    }
}

/// An entry's name is what stands before its first equals sign, and its value all that stands
/// behind it.
pub proof fn a_name_ends_at_the_first_equals_sign(name: Seq<u8>, value: Seq<u8>)
    requires
        forall|i: int| 0 <= i < name.len() ==> #[trigger] name[i] != 0x3d,
        valid_utf8(name),
        valid_utf8(value),
    ensures
        entry_in(name.push(0x3d) + value) == Some((decode_utf8(name), decode_utf8(value))),
{
    let bytes = name.push(0x3d) + value;
    let k = name.len() as int;
    equals_sign_is_first(bytes);
    assert(bytes[k] == 0x3d);
    assert(equals_sign(bytes) == Some(k)) by {
        if equals_sign(bytes) is Some {
            let found = equals_sign(bytes)->0;
            if found < k {
                assert(bytes[found] == name[found]);
            }
        }
    }
    assert(bytes.take(k) =~= name);
    assert(bytes.skip(k + 1) =~= value);
}

proof fn equals_sign_is_first(bytes: Seq<u8>)
    ensures
        match equals_sign(bytes) {
            Some(k) => 0 <= k < bytes.len() && bytes[k] == 0x3d && forall|j: int|
                0 <= j < k ==> #[trigger] bytes[j] != 0x3d,
            None => forall|j: int| 0 <= j < bytes.len() ==> #[trigger] bytes[j] != 0x3d,
        },
    decreases bytes.len(),
{
    if bytes.len() > 0 {
        let rest = bytes.drop_last();
        equals_sign_is_first(rest);
        assert forall|j: int| 0 <= j < rest.len() implies #[trigger] bytes[j] == rest[j] by {}
    }
}

/// Every gap that can be filled is: a variable that is asked for, has no value and has one in
/// the other environment is given it, but for a Wayland display in a session of X11's own.
pub proof fn hydration_fills_every_gap(
    names: Seq<Seq<char>>,
    current: Seq<(Seq<char>, Seq<char>)>,
    source: Seq<(Seq<char>, Seq<char>)>,
    k: int,
)
    requires
        0 <= k < names.len(),
        lookup(current, names[k]) is None || is_blank(lookup(current, names[k])->0),
        lookup(source, names[k]) is Some,
        !is_blank(lookup(source, names[k])->0),
        !is_native_x11(current) || names[k] != "WAYLAND_DISPLAY"@,
    ensures
        updates(names, current, source).contains((names[k], lookup(source, names[k])->0)),
    decreases names.len(),
{
    let rest = names.drop_last();
    let given = updates(names, current, source);
    let item = (names[k], lookup(source, names[k])->0);
    if k < rest.len() {
        assert(rest[k] == names[k]);
        hydration_fills_every_gap(rest, current, source, k);
        let before = updates(rest, current, source);
        let i = choose|i: int| 0 <= i < before.len() && before[i] == item;
        assert(given[i] == item);
    } else {
        assert(given[given.len() - 1] == item);
    }
}

/// The variables a desktop client needs are those of its bus, its displays, its desktop and
/// its compositor, the runtime directory and ydotool's socket.
pub proof fn a_desktop_client_needs_its_bus_and_display()
    ensures
        desktop_keys().contains("DBUS_SESSION_BUS_ADDRESS"@),
        desktop_keys().contains("DISPLAY"@),
        desktop_keys().contains("WAYLAND_DISPLAY"@),
        desktop_keys().contains("HYPRLAND_INSTANCE_SIGNATURE"@),
        desktop_keys().contains("XDG_RUNTIME_DIR"@),
        desktop_keys().contains("XDG_SESSION_TYPE"@),
        desktop_keys().contains("XDG_CURRENT_DESKTOP"@),
        desktop_keys().contains("XDG_SESSION_DESKTOP"@),
        desktop_keys().contains("DESKTOP_SESSION"@),
        desktop_keys().contains("XAUTHORITY"@),
        desktop_keys().contains("YDOTOOL_SOCKET"@),
        desktop_keys().len() == 11,
{
    let keys = desktop_keys();
    assert(keys[0] == "DBUS_SESSION_BUS_ADDRESS"@ && keys[1] == "DESKTOP_SESSION"@);
    assert(keys[2] == "DISPLAY"@ && keys[3] == "HYPRLAND_INSTANCE_SIGNATURE"@);
    assert(keys[4] == "XAUTHORITY"@ && keys[5] == "YDOTOOL_SOCKET"@);
    assert(keys[6] == "XDG_SESSION_DESKTOP"@ && keys[7] == "WAYLAND_DISPLAY"@);
    assert(keys[8] == "XDG_CURRENT_DESKTOP"@ && keys[9] == "XDG_RUNTIME_DIR"@);
    assert(keys[10] == "XDG_SESSION_TYPE"@);
}

/// The parent that is read is the first that a line names.
pub proof fn the_parent_is_the_first_named(all: Seq<Seq<char>>)
    ensures
        match first_parent(all) {
            Some(pid) => exists|k: int|
                0 <= k < all.len() && parent_in(#[trigger] all[k]) == Some(pid) && forall|j: int|
                    0 <= j < k ==> parent_in(#[trigger] all[j]) is None,
            None => forall|j: int| 0 <= j < all.len() ==> parent_in(#[trigger] all[j]) is None,
        },
    decreases all.len(),
{
    if all.len() > 0 {
        let rest = all.drop_last();
        the_parent_is_the_first_named(rest);
        assert forall|j: int| 0 <= j < rest.len() implies #[trigger] all[j] == rest[j] by {}
        if first_parent(rest) is Some {
            let k = choose|k: int|
                0 <= k < rest.len() && parent_in(#[trigger] rest[k]) == first_parent(rest)
                    && forall|j: int| 0 <= j < k ==> parent_in(#[trigger] rest[j]) is None;
            assert(all[k] == rest[k]);
            assert forall|j: int| 0 <= j < k implies parent_in(#[trigger] all[j]) is None by {
                assert(all[j] == rest[j]);
            }
        } else if parent_in(all.last()) is Some {
            let k = all.len() - 1;
            assert(all[k] == all.last());
            assert forall|j: int| 0 <= j < k implies parent_in(#[trigger] all[j]) is None by {
                assert(all[j] == rest[j]);
            }
        }
    }
}

/// The number behind `PPid:` is the parent, whatever whitespace stands between them.
pub proof fn a_parent_is_the_number_behind_its_label(pid: u32)
    ensures
        parent_in("PPid:"@ + seq!['\t'] + decimal(pid as int)) == Some(pid as int),
{
    let label = "PPid:"@;
    let rest = seq!['\t'] + decimal(pid as int);
    let line = label + seq!['\t'] + decimal(pid as int);
    assert(line =~= label + rest);
    containing_is_standing_between(line, label);
    assert(line.skip(label.len() as int) =~= rest);
    digits_are_visible(pid as int, 10);
    trim_keeps(decimal(pid as int));
    assert(rest.drop_first() =~= decimal(pid as int));
    assert(trim_start(rest) == trim_start(decimal(pid as int)));
    decimal_reads_back(pid as int, 0, u32::MAX as int);
}

/// A slash at the end of a path does not count, and two names without a slash name one path
/// only where they are the same.
pub proof fn a_slash_at_the_end_of_a_path_does_not_count(
    path: Seq<char>,
    a: Seq<char>,
    b: Seq<char>,
)
    requires
        path.len() > 0,
        a.len() > 0 && b.len() > 0,
        forall|i: int| 0 <= i < a.len() ==> #[trigger] a[i] != '/',
        forall|i: int| 0 <= i < b.len() ==> #[trigger] b[i] != '/',
    ensures
        same_path(path, path.push('/')),
        same_path(a, b) <==> a == b,
{
    let seps = seq!['/'];
    assert(seps[0] == '/');
    pieces_meet_at_a_separator(path, '/', Seq::empty(), seps);
    assert(path.push('/') + Seq::<char>::empty() =~= path.push('/'));
    unseparated_text_is_one_piece(Seq::empty(), seps);
    let all = split(path, seps);
    assert(all + seq![Seq::<char>::empty()] =~= all.push(Seq::empty()));
    assert(all.push(Seq::empty()).drop_last() =~= all);
    unseparated_text_is_one_piece(a, seps);
    unseparated_text_is_one_piece(b, seps);
    reveal_with_fuel(counted_parts, 2);
    assert(seq![a].drop_last() =~= Seq::empty());
    assert(seq![b].drop_last() =~= Seq::empty());
    assert(counted_parts(seq![a]) =~= seq![a]);
    assert(counted_parts(seq![b]) =~= seq![b]);
    assert(counted_parts(seq![a])[0] == a && counted_parts(seq![b])[0] == b);
}

/// The runtime directory is the one that is named, and the user's own only where none is.
pub proof fn the_runtime_directory_is_the_one_named(
    named: Option<Seq<char>>,
    uid: Option<Seq<char>>,
)
    ensures
        named is Some && !is_blank(named->0) ==> runtime_dir(named, uid) == named,
        named is None && uid is Some ==> runtime_dir(named, uid) == Some("/run/user/"@ + uid->0),
        named is None && uid is None ==> runtime_dir(named, uid) is None,
{
}

/// An entry whose name or value is no text is left out, as is one without an equals sign.
pub proof fn what_is_no_text_is_left_out(name: Seq<u8>, value: Seq<u8>)
    requires
        forall|i: int| 0 <= i < name.len() ==> #[trigger] name[i] != 0x3d,
    ensures
        !valid_utf8(name) || !valid_utf8(value) ==> entry_in(name.push(0x3d) + value) is None,
        entry_in(name) is None,
{
    let bytes = name.push(0x3d) + value;
    let k = name.len() as int;
    equals_sign_is_first(bytes);
    equals_sign_is_first(name);
    assert(bytes[k] == 0x3d);
    assert(equals_sign(bytes) == Some(k)) by {
        if equals_sign(bytes) is Some {
            let found = equals_sign(bytes)->0;
            if found < k {
                assert(bytes[found] == name[found]);
            }
        }
    }
    assert(bytes.take(k) =~= name);
    assert(bytes.skip(k + 1) =~= value);
}

/// The entries of two lists are those of the one and then of the other.
pub proof fn entries_are_read_one_by_one(a: Seq<Seq<u8>>, b: Seq<Seq<u8>>, entry: Seq<u8>)
    ensures
        entries_in(a + b) == entries_in(a) + entries_in(b),
        entry_in(entry) is Some ==> entries_in(seq![entry]) == seq![entry_in(entry)->0],
        entry_in(entry) is None ==> entries_in(seq![entry]).len() == 0,
    decreases b.len(),
{
    assert(seq![entry].drop_last() =~= Seq::empty());
    assert(entries_in(Seq::<Seq<u8>>::empty()) =~= Seq::empty());
    if entry_in(entry) is Some {
        assert(entries_in(seq![entry]) =~= seq![entry_in(entry)->0]);
    }
    if b.len() == 0 {
        assert(a + b =~= a);
        assert(entries_in(a) + entries_in(b) =~= entries_in(a));
    } else {
        entries_are_read_one_by_one(a, b.drop_last(), entry);
        assert((a + b).drop_last() =~= a + b.drop_last());
        assert((a + b).last() == b.last());
        assert(entries_in(a + b) =~= entries_in(a) + entries_in(b));
    }
}

} // verus!

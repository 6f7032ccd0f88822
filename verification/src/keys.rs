//! Keys: reading chords, and the `ydotool` arguments that press them.

use vstd::prelude::*;
use vstd::string::StringExecFns;
use crate::numerals::{decimal, decimal_of, digit_char, digits};
use crate::text::{
    blank, cat, chars_of, debug_of, debug_text, has_char, is_blank, is_white, join,
    joining_undoes_splitting, lower, lower_char, lowered, pieces_meet_at_a_separator, same, split,
    split_at_any, texts, texts_push, trim, trim_keeps, trimmed, unseparated_text_is_one_piece,
};

verus! {

/// The text without the characters of a list.
pub open spec fn without_chars(s: Seq<char>, drop: Seq<char>) -> Seq<char>
    decreases s.len(),
{
    if s.len() == 0 {
        s
    } else if drop.contains(s.last()) {
        without_chars(s.drop_last(), drop)
    } else {
        without_chars(s.drop_last(), drop).push(s.last())
    }
}

/// A key name as it counts: trimmed, in small letters, without hyphens and spaces.
pub open spec fn normal_key(key: Seq<char>) -> Seq<char> {
    without_chars(lower(trim(key)), seq!['-', ' '])
}

/// A key name as it counts.
pub fn normalize_key(key: &str) -> (r: String)
    ensures
        r@ == normal_key(key@),
{
    let v = chars_of(&lowered(&trimmed(key)));
    let drop: [char; 2] = ['-', ' '];
    assert(drop@ =~= seq!['-', ' ']);
    let mut t = String::new();
    for i in 0..v.len()
        invariant
            drop@ == seq!['-', ' '],
            t@ == without_chars(v@.take(i as int), seq!['-', ' ']),
    {
        assert(v@.take(i + 1).drop_last() =~= v@.take(i as int));
        if !has_char(&drop, v[i]) {
            t.push(v[i]);
        }
    }
    assert(v@.take(v@.len() as int) =~= v@);
    t
}

/// The code of a key that types one character.
pub open spec fn character_code(c: char) -> Option<u16> {
    match c {
        'a' => Some(30),
        'b' => Some(48),
        'c' => Some(46),
        'd' => Some(32),
        'e' => Some(18),
        'f' => Some(33),
        'g' => Some(34),
        'h' => Some(35),
        'i' => Some(23),
        'j' => Some(36),
        'k' => Some(37),
        'l' => Some(38),
        'm' => Some(50),
        'n' => Some(49),
        'o' => Some(24),
        'p' => Some(25),
        'q' => Some(16),
        'r' => Some(19),
        's' => Some(31),
        't' => Some(20),
        'u' => Some(22),
        'v' => Some(47),
        'w' => Some(17),
        'x' => Some(45),
        'y' => Some(21),
        'z' => Some(44),
        '1' => Some(2),
        '2' => Some(3),
        '3' => Some(4),
        '4' => Some(5),
        '5' => Some(6),
        '6' => Some(7),
        '7' => Some(8),
        '8' => Some(9),
        '9' => Some(10),
        '0' => Some(11),
        _ => None,
    }
}

/// The code of a key that types one character.
pub fn keycode_for_ascii(value: char) -> (r: Option<u16>)
    ensures
        r == character_code(value),
{
    match value {
        'a' => Some(30),
        'b' => Some(48),
        'c' => Some(46),
        'd' => Some(32),
        'e' => Some(18),
        'f' => Some(33),
        'g' => Some(34),
        'h' => Some(35),
        'i' => Some(23),
        'j' => Some(36),
        'k' => Some(37),
        'l' => Some(38),
        'm' => Some(50),
        'n' => Some(49),
        'o' => Some(24),
        'p' => Some(25),
        'q' => Some(16),
        'r' => Some(19),
        's' => Some(31),
        't' => Some(20),
        'u' => Some(22),
        'v' => Some(47),
        'w' => Some(17),
        'x' => Some(45),
        'y' => Some(21),
        'z' => Some(44),
        '1' => Some(2),
        '2' => Some(3),
        '3' => Some(4),
        '4' => Some(5),
        '5' => Some(6),
        '6' => Some(7),
        '7' => Some(8),
        '8' => Some(9),
        '9' => Some(10),
        '0' => Some(11),
        _ => None,
    }
}

/// The code of a modifier, by its normal name.
pub open spec fn modifier_named(k: Seq<char>) -> Option<u16> {
    if k == "ctrl"@ || k == "control"@ {
        Some(29u16)
    } else if k == "alt"@ || k == "option"@ {
        Some(56u16)
    } else if k == "shift"@ {
        Some(42u16)
    } else if k == "meta"@ || k == "super"@ || k == "cmd"@ || k == "command"@ {
        Some(125u16)
    } else {
        None
    }
}

/// The code of a modifier.
pub open spec fn modifier_code(key: Seq<char>) -> Option<u16> {
    modifier_named(normal_key(key))
}

/// The code of a modifier.
pub fn modifier_keycode(key: &str) -> (r: Option<u16>)
    ensures
        r == modifier_code(key@),
{
    let k = normalize_key(key);
    if same(&k, "ctrl") || same(&k, "control") {
        Some(29)
    } else if same(&k, "alt") || same(&k, "option") {
        Some(56)
    } else if same(&k, "shift") {
        Some(42)
    } else if same(&k, "meta") || same(&k, "super") || same(&k, "cmd") || same(&k, "command") {
        Some(125)
    } else {
        None
    }
}

/// The code of a key, by its normal name.
pub open spec fn key_named(k: Seq<char>) -> Option<u16> {
    if k == "enter"@ || k == "return"@ {
        Some(28u16)
    } else if k == "escape"@ || k == "esc"@ {
        Some(1u16)
    } else if k == "tab"@ {
        Some(15u16)
    } else if k == "backspace"@ {
        Some(14u16)
    } else if k == "delete"@ || k == "del"@ {
        Some(111u16)
    } else if k == "space"@ {
        Some(57u16)
    } else if k == "home"@ {
        Some(102u16)
    } else if k == "end"@ {
        Some(107u16)
    } else if k == "pageup"@ || k == "page_up"@ {
        Some(104u16)
    } else if k == "pagedown"@ || k == "page_down"@ {
        Some(109u16)
    } else if k == "arrowleft"@ || k == "left"@ {
        Some(105u16)
    } else if k == "arrowright"@ || k == "right"@ {
        Some(106u16)
    } else if k == "arrowup"@ || k == "up"@ {
        Some(103u16)
    } else if k == "arrowdown"@ || k == "down"@ {
        Some(108u16)
    } else if k == "f1"@ {
        Some(59u16)
    } else if k == "f2"@ {
        Some(60u16)
    } else if k == "f3"@ {
        Some(61u16)
    } else if k == "f4"@ {
        Some(62u16)
    } else if k == "f5"@ {
        Some(63u16)
    } else if k == "f6"@ {
        Some(64u16)
    } else if k == "f7"@ {
        Some(65u16)
    } else if k == "f8"@ {
        Some(66u16)
    } else if k == "f9"@ {
        Some(67u16)
    } else if k == "f10"@ {
        Some(68u16)
    } else if k == "f11"@ {
        Some(87u16)
    } else if k == "f12"@ {
        Some(88u16)
    } else if k.len() == 1 {
        character_code(k[0])
    } else {
        None
    }
}

/// The code of a key.
pub open spec fn key_code(key: Seq<char>) -> Option<u16> {
    key_named(normal_key(key))
}

/// The code of a key.
pub fn keycode(key: &str) -> (r: Option<u16>)
    ensures
        r == key_code(key@),
{
    let k = normalize_key(key);
    if same(&k, "enter") || same(&k, "return") {
        Some(28)
    } else if same(&k, "escape") || same(&k, "esc") {
        Some(1)
    } else if same(&k, "tab") {
        Some(15)
    } else if same(&k, "backspace") {
        Some(14)
    } else if same(&k, "delete") || same(&k, "del") {
        Some(111)
    } else if same(&k, "space") {
        Some(57)
    } else if same(&k, "home") {
        Some(102)
    } else if same(&k, "end") {
        Some(107)
    } else if same(&k, "pageup") || same(&k, "page_up") {
        Some(104)
    } else if same(&k, "pagedown") || same(&k, "page_down") {
        Some(109)
    } else if same(&k, "arrowleft") || same(&k, "left") {
        Some(105)
    } else if same(&k, "arrowright") || same(&k, "right") {
        Some(106)
    } else if same(&k, "arrowup") || same(&k, "up") {
        Some(103)
    } else if same(&k, "arrowdown") || same(&k, "down") {
        Some(108)
    } else if same(&k, "f1") {
        Some(59)
    } else if same(&k, "f2") {
        Some(60)
    } else if same(&k, "f3") {
        Some(61)
    } else if same(&k, "f4") {
        Some(62)
    } else if same(&k, "f5") {
        Some(63)
    } else if same(&k, "f6") {
        Some(64)
    } else if same(&k, "f7") {
        Some(65)
    } else if same(&k, "f8") {
        Some(66)
    } else if same(&k, "f9") {
        Some(67)
    } else if same(&k, "f10") {
        Some(68)
    } else if same(&k, "f11") {
        Some(87)
    } else if same(&k, "f12") {
        Some(88)
    } else {
        let v = chars_of(&k);
        if v.len() == 1 {
            keycode_for_ascii(v[0])
        } else {
            None
        }
    }
}

/// The pieces of a list that are not blank, each trimmed.
pub open spec fn filled_parts(parts: Seq<Seq<char>>) -> Seq<Seq<char>>
    decreases parts.len(),
{
    if parts.len() == 0 {
        Seq::empty()
    } else if is_blank(parts.last()) {
        filled_parts(parts.drop_last())
    } else {
        filled_parts(parts.drop_last()).push(trim(parts.last()))
    }
}

/// The pieces of a list that are not blank, each trimmed.
pub fn filled_parts_of(parts: &[String]) -> (r: Vec<String>)
    ensures
        texts(r@) == filled_parts(texts(parts@)),
{
    broadcast use texts_push;

    let mut kept: Vec<String> = Vec::new();
    assert(texts(kept@) =~= Seq::empty());
    assert(texts(parts@.take(0)) =~= Seq::empty());
    for i in 0..parts.len()
        invariant
            texts(kept@) == filled_parts(texts(parts@.take(i as int))),
    {
        broadcast use texts_push;

        let ghost now = texts(parts@.take(i + 1));
        assert(now.drop_last() =~= texts(parts@.take(i as int)));
        assert(now.last() == parts@[i as int]@);
        if !blank(&parts[i]) {
            kept.push(trimmed(&parts[i]));
        }
    }
    assert(parts@.take(parts@.len() as int) =~= parts@);
    kept
}

/// The codes of some modifiers, where all of them are ones.
pub open spec fn modifier_codes(parts: Seq<Seq<char>>) -> Option<Seq<u16>>
    decreases parts.len(),
{
    if parts.len() == 0 {
        Some(Seq::empty())
    } else {
        match (modifier_codes(parts.drop_last()), modifier_code(parts.last())) {
            (Some(codes), Some(code)) => Some(codes.push(code)),
            _ => None,
        }
    }
}

/// A chord: the modifiers that are held, and the key that is struck. Names stand between
/// plus signs, and a modifier alone is struck itself. Between two plus signs, before the
/// first and behind the last there is a name, or there is no chord.
pub open spec fn chord(key: Seq<char>) -> Option<(Seq<u16>, u16)> {
    let parts = split(key, seq!['+']);
    if parts.len() == 1 && modifier_code(parts[0]) is Some {
        Some((Seq::empty(), modifier_code(parts[0])->0))
    } else {
        match (modifier_codes(parts.drop_last()), key_code(parts.last())) {
            (Some(held), Some(struck)) => Some((held, struck)),
            _ => None,
        }
    }
}

/// One name that is none spoils all of them.
proof fn bad_modifier_stays(parts: Seq<Seq<char>>, k: int)
    requires
        0 <= k <= parts.len(),
        modifier_codes(parts.take(k)) is None,
    ensures
        modifier_codes(parts) is None,
    decreases parts.len(),
{
    if k < parts.len() {
        assert(parts.drop_last().take(k) =~= parts.take(k));
        bad_modifier_stays(parts.drop_last(), k);
    } else {
        assert(parts.take(k) =~= parts);
    }
}

/// Parse a chord like `Ctrl+Shift+P` into raw evdev codes: the held
/// modifiers plus the final key. A bare modifier (`Super`) parses as a
/// chord with no held modifiers whose key is the modifier itself. A part that names
/// nothing, an empty one too, makes the whole no chord.
pub fn key_chord(key: &str) -> (r: Option<(Vec<u16>, u16)>)
    ensures
        match r {
            Some((held, struck)) => chord(key@) == Some((held@, struck)),
            None => chord(key@) is None,
        },
{
    let seps: [char; 1] = ['+'];
    assert(seps@ =~= seq!['+']);
    let parts = split_at_any(key, &seps);
    let ghost all = texts(parts@);
    let last: usize = parts.len() - 1;
    assert(all.last() == parts@[last as int]@);
    if last == 0 {
        assert(all[0] == parts@[0]@);
        if let Some(modifier) = modifier_keycode(&parts[0]) {
            let none: Vec<u16> = Vec::new();
            assert(none@ =~= Seq::<u16>::empty());
            return Some((none, modifier));
        }
    }
    let mut held: Vec<u16> = Vec::new();
    assert(all.drop_last().take(0) =~= Seq::empty());
    for i in 0..last
        invariant
            all == texts(parts@),
            last + 1 == parts@.len(),
            modifier_codes(all.drop_last().take(i as int)) == Some(held@),
            chord(key@) is Some ==> modifier_codes(all.drop_last()) is Some,
    {
        let ghost now = all.drop_last().take(i + 1);
        assert(now.drop_last() =~= all.drop_last().take(i as int));
        assert(now.last() == parts@[i as int]@);
        match modifier_keycode(&parts[i]) {
            Some(code) => held.push(code),
            None => {
                proof {
                    bad_modifier_stays(all.drop_last(), i + 1);
                }
                return None;
            },
        }
    }
    assert(all.drop_last().take(last as int) =~= all.drop_last());
    match keycode(&parts[last]) {
        Some(struck) => Some((held, struck)),
        None => None,
    }
}

/// One name that is none spoils all of them, wherever it stands.
proof fn bad_modifier_spoils(parts: Seq<Seq<char>>, k: int)
    requires
        0 <= k < parts.len(),
        modifier_code(parts[k]) is None,
    ensures
        modifier_codes(parts) is None,
    decreases parts.len(),
{
    if k < parts.len() - 1 {
        assert(parts.drop_last()[k] == parts[k]);
        bad_modifier_spoils(parts.drop_last(), k);
    }
}

/// A blank name is no key and no modifier.
proof fn a_blank_name_is_none(name: Seq<char>)
    requires
        is_blank(name),
    ensures
        modifier_code(name) is None,
        key_code(name) is None,
{
    reveal_strlit("ctrl");
    reveal_strlit("control");
    reveal_strlit("alt");
    reveal_strlit("option");
    reveal_strlit("shift");
    reveal_strlit("meta");
    reveal_strlit("super");
    reveal_strlit("cmd");
    reveal_strlit("command");
    assert(trim(name).len() == 0);
    assert(lower(trim(name)).len() == 0);
    assert(normal_key(name).len() == 0);
    reveal_strlit("enter");
    reveal_strlit("return");
    reveal_strlit("escape");
    reveal_strlit("esc");
    reveal_strlit("tab");
    reveal_strlit("backspace");
    reveal_strlit("delete");
    reveal_strlit("del");
    reveal_strlit("space");
    reveal_strlit("home");
    reveal_strlit("end");
    reveal_strlit("pageup");
    reveal_strlit("page_up");
    reveal_strlit("pagedown");
    reveal_strlit("page_down");
    reveal_strlit("arrowleft");
    reveal_strlit("left");
    reveal_strlit("arrowright");
    reveal_strlit("right");
    reveal_strlit("arrowup");
    reveal_strlit("up");
    reveal_strlit("arrowdown");
    reveal_strlit("down");
    reveal_strlit("f1");
    reveal_strlit("f2");
    reveal_strlit("f3");
    reveal_strlit("f4");
    reveal_strlit("f5");
    reveal_strlit("f6");
    reveal_strlit("f7");
    reveal_strlit("f8");
    reveal_strlit("f9");
    reveal_strlit("f10");
    reveal_strlit("f11");
    reveal_strlit("f12");
}

/// Nothing of a chord is dropped: where a part between the plus signs is blank, the text is
/// no chord.
pub proof fn an_empty_part_spoils_a_chord(key: Seq<char>, k: int)
    requires
        0 <= k < split(key, seq!['+']).len(),
        is_blank(split(key, seq!['+'])[k]),
    ensures
        chord(key) is None,
{
    let parts = split(key, seq!['+']);
    a_blank_name_is_none(parts[k]);
    if k < parts.len() - 1 {
        assert(parts.drop_last()[k] == parts[k]);
        bad_modifier_spoils(parts.drop_last(), k);
    }
}

/// A press or a release of a key, by its code.
pub open spec fn presses(codes: Seq<u16>, down: bool) -> Seq<(u16, bool)> {
    codes.map_values(|code: u16| (code, down))
}

/// What a chord does: its modifiers go down in order, its key is struck, and they come up
/// in the opposite order.
pub open spec fn chord_events(held: Seq<u16>, struck: u16) -> Seq<(u16, bool)> {
    presses(held, true) + seq![(struck, true), (struck, false)] + presses(held.reverse(), false)
}

/// An event in the form `ydotool key` takes.
pub open spec fn event_text(event: (u16, bool)) -> Seq<char> {
    decimal(event.0 as int) + (if event.1 {
        ":1"@
    } else {
        ":0"@
    })
}

/// Events in the form `ydotool key` takes.
pub open spec fn event_texts(events: Seq<(u16, bool)>) -> Seq<Seq<char>> {
    events.map_values(|event: (u16, bool)| event_text(event))
}

fn event_of(code: u16, down: bool) -> (r: String)
    ensures
        r@ == event_text((code, down)),
{
    if down {
        cat(&decimal_of(code as u64), ":1")
    } else {
        cat(&decimal_of(code as u64), ":0")
    }
}

/// The key events of a chord, as arguments of `ydotool key`.
pub fn key_sequence(key: &str) -> (r: Option<Vec<String>>)
    ensures
        match r {
            Some(events) => chord(key@) is Some && texts(events@) == event_texts(
                chord_events((chord(key@)->0).0, (chord(key@)->0).1),
            ),
            None => chord(key@) is None,
        },
{
    broadcast use texts_push;

    let (held, struck): (Vec<u16>, u16) = match key_chord(key) {
        Some(chord) => chord,
        None => return None,
    };
    let mut events: Vec<String> = Vec::new();
    assert(texts(events@) =~= event_texts(presses(held@.take(0), true)));
    for i in 0..held.len()
        invariant
            texts(events@) == event_texts(presses(held@.take(i as int), true)),
    {
        broadcast use texts_push;

        events.push(event_of(held[i], true));
        assert(event_texts(presses(held@.take(i + 1), true)) =~= event_texts(
            presses(held@.take(i as int), true),
        ).push(event_text((held@[i as int], true))));
    }
    assert(held@.take(held@.len() as int) =~= held@);
    events.push(event_of(struck, true));
    events.push(event_of(struck, false));
    let ghost before = event_texts(presses(held@, true)).push(event_text((struck, true))).push(
        event_text((struck, false)),
    );
    assert(before + event_texts(presses(held@.reverse().take(0), false)) =~= before);
    let count: usize = held.len();
    for k in 0..count
        invariant
            count == held@.len(),
            texts(events@) == before + event_texts(
                presses(held@.reverse().take(k as int), false),
            ),
    {
        broadcast use texts_push;

        let ghost back = held@.reverse();
        assert(back[k as int] == held@[count - 1 - k]);
        events.push(event_of(held[count - 1 - k], false));
        assert(before + event_texts(presses(back.take(k + 1), false)) =~= (before + event_texts(
            presses(back.take(k as int), false),
        )).push(event_text((back[k as int], false))));
    }
    assert(held@.reverse().take(count as int) =~= held@.reverse());
    assert(texts(events@) =~= event_texts(chord_events(held@, struck)));
    Some(events)
}

/// The keys that are down after some events.
pub open spec fn down_after(events: Seq<(u16, bool)>) -> Set<u16>
    decreases events.len(),
{
    if events.len() == 0 {
        Set::empty()
    } else if events.last().1 {
        down_after(events.drop_last()).insert(events.last().0)
    } else {
        down_after(events.drop_last()).remove(events.last().0)
    }
}

proof fn presses_go_down(codes: Seq<u16>)
    ensures
        down_after(presses(codes, true)) == codes.to_set(),
    decreases codes.len(),
{
    let events = presses(codes, true);
    if codes.len() == 0 {
        assert(codes.to_set() =~= Set::empty());
    } else {
        presses_go_down(codes.drop_last());
        assert(events.drop_last() =~= presses(codes.drop_last(), true));
        assert(codes.to_set() =~= codes.drop_last().to_set().insert(codes.last())) by {
            assert forall|c: u16| codes.to_set().contains(c) implies codes.drop_last().to_set().insert(
                codes.last(),
            ).contains(c) by {
                let i = choose|i: int| 0 <= i < codes.len() && codes[i] == c;
                if i < codes.len() - 1 {
                    assert(codes.drop_last()[i] == c);
                }
            }
            assert forall|c: u16| codes.drop_last().to_set().insert(codes.last()).contains(
                c,
            ) implies codes.to_set().contains(c) by {
                if c == codes.last() {
                    assert(codes[codes.len() - 1] == c);
                } else {
                    let i = choose|i: int| 0 <= i < codes.drop_last().len() && codes.drop_last()[i] == c;
                    assert(codes[i] == c);
                }
            }
        }
    }
}

proof fn releases_come_up(before: Seq<(u16, bool)>, codes: Seq<u16>)
    ensures
        down_after(before + presses(codes, false)) == down_after(before).difference(codes.to_set()),
    decreases codes.len(),
{
    let events = before + presses(codes, false);
    if codes.len() == 0 {
        assert(events =~= before);
        assert(down_after(before).difference(codes.to_set()) =~= down_after(before));
    } else {
        releases_come_up(before, codes.drop_last());
        assert(events.drop_last() =~= before + presses(codes.drop_last(), false));
        assert(events.last() == (codes.last(), false));
        assert(down_after(before).difference(codes.to_set()) =~= down_after(before).difference(
            codes.drop_last().to_set(),
        ).remove(codes.last())) by {
            assert forall|c: u16| codes.to_set().contains(c) implies c == codes.last()
                || codes.drop_last().to_set().contains(c) by {
                let i = choose|i: int| 0 <= i < codes.len() && codes[i] == c;
                if i < codes.len() - 1 {
                    assert(codes.drop_last()[i] == c);
                }
            }
            assert forall|c: u16| codes.drop_last().to_set().contains(c) || c
                == codes.last() implies codes.to_set().contains(c) by {
                if c == codes.last() {
                    assert(codes[codes.len() - 1] == c);
                } else {
                    let i = choose|i: int|
                        0 <= i < codes.drop_last().len() && codes.drop_last()[i] == c;
                    assert(codes[i] == c);
                }
            }
        }
    }
}

/// A chord strikes its key with every modifier down, and leaves no key down.
pub proof fn a_chord_leaves_nothing_held(held: Seq<u16>, struck: u16)
    ensures
        down_after(chord_events(held, struck)) == Set::<u16>::empty(),
        forall|code: u16| #[trigger]
            held.contains(code) ==> down_after(
                chord_events(held, struck).take(held.len() + 1int),
            ).contains(code),
        down_after(chord_events(held, struck).take(held.len() + 1int)).contains(struck),
{
    let down = presses(held, true);
    let tapped = down + seq![(struck, true), (struck, false)];
    presses_go_down(held);
    let pressed = down.push((struck, true));
    assert(pressed.drop_last() =~= down);
    assert(chord_events(held, struck).take(held.len() + 1int) =~= pressed);
    assert(tapped.drop_last() =~= pressed);
    assert(tapped.last() == (struck, false));
    releases_come_up(tapped, held.reverse());
    assert(chord_events(held, struck) =~= tapped + presses(held.reverse(), false));
    assert forall|c: u16| held.to_set().contains(c) implies #[trigger] held.reverse().to_set().contains(c) by {
        let i = choose|i: int| 0 <= i < held.len() && held[i] == c;
        assert(held.reverse()[held.len() - 1 - i] == c);
    }
    assert(down_after(pressed) == held.to_set().insert(struck));
    assert(down_after(tapped) == held.to_set().insert(struck).remove(struck));
    assert(down_after(chord_events(held, struck)) =~= Set::<u16>::empty());
}

/// What `press_key` sends: the one key, or the several, but not both and not neither.
pub open spec fn keys_meant(key: Option<Seq<char>>, keys: Seq<Seq<char>>) -> Result<
    Seq<Seq<char>>,
    Seq<char>,
> {
    let one = key is Some && !is_blank(key->0);
    let several = filled_parts(keys);
    if one && several.len() == 0 {
        Ok(seq![trim(key->0)])
    } else if !one && several.len() > 0 {
        Ok(several)
    } else if one {
        Err("Pass either key or keys, not both."@)
    } else {
        Err("Pass key (one key or chord) or keys (a sequence)."@)
    }
}

/// The keys `press_key` sends, from exactly one of `key` and `keys`.
pub fn press_key_sequence(key: Option<&str>, keys: &[String]) -> (r: Result<Vec<String>, String>)
    ensures
        ({
            let due = keys_meant(
                match key {
                    Some(key) => Some(key@),
                    None => None,
                },
                texts(keys@),
            );
            match r {
                Ok(sent) => due == Ok::<Seq<Seq<char>>, Seq<char>>(texts(sent@)),
                Err(message) => due == Err::<Seq<Seq<char>>, Seq<char>>(message@),
            }
        }),
{
    let one = match key {
        Some(key) => if blank(key) {
            None
        } else {
            Some(trimmed(key))
        },
        None => None,
    };
    let several = filled_parts_of(keys);
    match one {
        Some(one) => if several.len() == 0 {
            let ghost only = one@;
            let mut sent: Vec<String> = Vec::new();
            sent.push(one);
            assert(texts(sent@) =~= seq![only]);
            Ok(sent)
        } else {
            Err("Pass either key or keys, not both.".to_owned())
        },
        None => if several.len() > 0 {
            Ok(several)
        } else {
            Err("Pass key (one key or chord) or keys (a sequence).".to_owned())
        },
    }
}

/// The codes of the modifiers held around a pointer action, each once and in the order
/// first named, or the first name that is none.
pub open spec fn held_modifiers(modifiers: Seq<Seq<char>>) -> Result<Seq<u16>, Seq<char>>
    decreases modifiers.len(),
{
    if modifiers.len() == 0 {
        Ok(Seq::empty())
    } else {
        match held_modifiers(modifiers.drop_last()) {
            Err(message) => Err(message),
            Ok(codes) => match modifier_code(modifiers.last()) {
                Some(code) => if codes.contains(code) {
                    Ok(codes)
                } else {
                    Ok(codes.push(code))
                },
                None => Err(
                    "Unsupported modifier "@ + debug_text(modifiers.last())
                        + "; use ctrl, alt, shift, or meta."@,
                ),
            },
        }
    }
}

proof fn bad_name_stays(modifiers: Seq<Seq<char>>, k: int)
    requires
        0 <= k <= modifiers.len(),
        held_modifiers(modifiers.take(k)) is Err,
    ensures
        held_modifiers(modifiers) == held_modifiers(modifiers.take(k)),
    decreases modifiers.len(),
{
    if k < modifiers.len() {
        assert(modifiers.drop_last().take(k) =~= modifiers.take(k));
        bad_name_stays(modifiers.drop_last(), k);
    } else {
        assert(modifiers.take(k) =~= modifiers);
    }
}

fn has_code(codes: &[u16], code: u16) -> (r: bool)
    ensures
        r == codes@.contains(code),
{
    for i in 0..codes.len()
        invariant
            forall|j: int| 0 <= j < i ==> codes@[j] != code,
    {
        if codes[i] == code {
            assert(codes@[i as int] == code);
            return true;
        }
    }
    false
}

/// Evdev codes for the modifier names click/drag hold around a pointer action.
pub fn modifier_keycodes(modifiers: &[String]) -> (r: Result<Vec<u16>, String>)
    ensures
        match r {
            Ok(codes) => held_modifiers(texts(modifiers@)) == Ok::<Seq<u16>, Seq<char>>(codes@),
            Err(message) => held_modifiers(texts(modifiers@)) == Err::<Seq<u16>, Seq<char>>(
                message@,
            ),
        },
{
    let ghost all = texts(modifiers@);
    let mut codes: Vec<u16> = Vec::new();
    assert(all.take(0) =~= Seq::empty());
    for i in 0..modifiers.len()
        invariant
            all == texts(modifiers@),
            held_modifiers(all.take(i as int)) == Ok::<Seq<u16>, Seq<char>>(codes@),
    {
        assert(all.take(i + 1).drop_last() =~= all.take(i as int));
        assert(all.take(i + 1).last() == modifiers@[i as int]@);
        match modifier_keycode(&modifiers[i]) {
            Some(code) => {
                if !has_code(&codes, code) {
                    codes.push(code);
                }
            },
            None => {
                let mut message = cat("Unsupported modifier ", &debug_of(&modifiers[i]));
                message.append("; use ctrl, alt, shift, or meta.");
                proof {
                    bad_name_stays(all, i + 1);
                }
                return Err(message);
            },
        }
    }
    assert(all.take(modifiers@.len() as int) =~= all);
    Ok(codes)
}

/// No modifier is held twice.
pub proof fn held_modifiers_are_distinct(modifiers: Seq<Seq<char>>)
    requires
        held_modifiers(modifiers) is Ok,
    ensures
        held_modifiers(modifiers)->Ok_0.no_duplicates(),
    decreases modifiers.len(),
{
    if modifiers.len() > 0 {
        held_modifiers_are_distinct(modifiers.drop_last());
    }
}

/// `ydotool key` arguments that press (`pressed`) or release every modifier.
pub fn modifier_hold_args(codes: &[u16], pressed: bool) -> (r: Vec<String>)
    ensures
        texts(r@) == seq!["key"@] + event_texts(presses(codes@, pressed)),
{
    broadcast use texts_push;

    let mut args: Vec<String> = Vec::new();
    args.push("key".to_owned());
    assert(texts(args@) =~= seq!["key"@] + event_texts(presses(codes@.take(0), pressed)));
    for i in 0..codes.len()
        invariant
            texts(args@) == seq!["key"@] + event_texts(presses(codes@.take(i as int), pressed)),
    {
        broadcast use texts_push;

        args.push(event_of(codes[i], pressed));
        assert(seq!["key"@] + event_texts(presses(codes@.take(i + 1), pressed)) =~= (seq!["key"@]
            + event_texts(presses(codes@.take(i as int), pressed))).push(
            event_text((codes@[i as int], pressed)),
        ));
    }
    assert(codes@.take(codes@.len() as int) =~= codes@);
    args
}

/// Holding modifiers and letting go of them leaves none of them down.
pub proof fn held_modifiers_come_up(codes: Seq<u16>)
    ensures
        down_after(presses(codes, true) + presses(codes, false)) == Set::<u16>::empty(),
{
    presses_go_down(codes);
    releases_come_up(presses(codes, true), codes);
    assert(codes.to_set().difference(codes.to_set()) =~= Set::<u16>::empty());
}

/// `ydotool key` arguments for some events, spaced out where modifiers are among them.
pub fn ydotool_key_args(key_events: &[String], has_modifiers: bool) -> (r: Vec<String>)
    ensures
        texts(r@) == (if has_modifiers {
            seq!["key"@, "-d"@, "100"@]
        } else {
            seq!["key"@]
        }) + texts(key_events@),
{
    broadcast use texts_push;

    let mut args: Vec<String> = Vec::new();
    args.push("key".to_owned());
    if has_modifiers {
        args.push("-d".to_owned());
        args.push("100".to_owned());
    }
    let ghost opening = texts(args@);
    assert(opening =~= if has_modifiers {
        seq!["key"@, "-d"@, "100"@]
    } else {
        seq!["key"@]
    });
    assert(opening + texts(key_events@.take(0)) =~= opening);
    for i in 0..key_events.len()
        invariant
            texts(args@) == opening + texts(key_events@.take(i as int)),
    {
        broadcast use texts_push;

        args.push(key_events[i].clone());
        assert(opening + texts(key_events@.take(i + 1)) =~= (opening + texts(
            key_events@.take(i as int),
        )).push(key_events@[i as int]@));
    }
    assert(key_events@.take(key_events@.len() as int) =~= key_events@);
    args
}

/// The kernel's code of Escape.
pub const KEY_ESC: u16 = 1;

/// The kernel's code of the key that is the digit row's first.
pub const KEY_1: u16 = 2;

/// The kernel's code of Backspace.
pub const KEY_BACKSPACE: u16 = 14;

/// The kernel's code of Tab.
pub const KEY_TAB: u16 = 15;

/// The kernel's code of the key that is the upper letter row's first.
pub const KEY_Q: u16 = 16;

/// The kernel's code of Enter.
pub const KEY_ENTER: u16 = 28;

/// The kernel's code of the left Control.
pub const KEY_LEFTCTRL: u16 = 29;

/// The kernel's code of the key that is the middle letter row's first.
pub const KEY_A: u16 = 30;

/// The kernel's code of the left Shift.
pub const KEY_LEFTSHIFT: u16 = 42;

/// The kernel's code of the key that is the lower letter row's first.
pub const KEY_Z: u16 = 44;

/// The kernel's code of the left Alt.
pub const KEY_LEFTALT: u16 = 56;

/// The kernel's code of the space bar.
pub const KEY_SPACE: u16 = 57;

/// The kernel's code of the key that is the function row's first.
pub const KEY_F1: u16 = 59;

/// The kernel's code of the key that is the function row's eleventh.
pub const KEY_F11: u16 = 87;

/// The kernel's code of Home.
pub const KEY_HOME: u16 = 102;

/// The kernel's code of the up arrow.
pub const KEY_UP: u16 = 103;

/// The kernel's code of Page Up.
pub const KEY_PAGEUP: u16 = 104;

/// The kernel's code of the left arrow.
pub const KEY_LEFT: u16 = 105;

/// The kernel's code of the right arrow.
pub const KEY_RIGHT: u16 = 106;

/// The kernel's code of End.
pub const KEY_END: u16 = 107;

/// The kernel's code of the down arrow.
pub const KEY_DOWN: u16 = 108;

/// The kernel's code of Page Down.
pub const KEY_PAGEDOWN: u16 = 109;

/// The kernel's code of Delete.
pub const KEY_DELETE: u16 = 111;

/// The kernel's code of the left Meta.
pub const KEY_LEFTMETA: u16 = 125;

/// The names of keys and modifiers, by what tells each from the others.
proof fn key_names_are_spelled_apart()
    ensures
        "enter"@.len() == 5,
        "return"@.len() == 6,
        "escape"@.len() == 6,
        "esc"@.len() == 3,
        "tab"@.len() == 3,
        "backspace"@.len() == 9,
        "delete"@.len() == 6,
        "del"@.len() == 3,
        "space"@.len() == 5,
        "home"@.len() == 4,
        "end"@.len() == 3,
        "pageup"@.len() == 6,
        "page_up"@.len() == 7,
        "pagedown"@.len() == 8,
        "page_down"@.len() == 9,
        "arrowleft"@.len() == 9,
        "left"@.len() == 4,
        "arrowright"@.len() == 10,
        "right"@.len() == 5,
        "arrowup"@.len() == 7,
        "up"@.len() == 2,
        "arrowdown"@.len() == 9,
        "down"@.len() == 4,
        "f1"@.len() == 2,
        "f2"@.len() == 2,
        "f3"@.len() == 2,
        "f4"@.len() == 2,
        "f5"@.len() == 2,
        "f6"@.len() == 2,
        "f7"@.len() == 2,
        "f8"@.len() == 2,
        "f9"@.len() == 2,
        "f10"@.len() == 3,
        "f11"@.len() == 3,
        "f12"@.len() == 3,
        "ctrl"@.len() == 4,
        "control"@.len() == 7,
        "alt"@.len() == 3,
        "option"@.len() == 6,
        "shift"@.len() == 5,
        "meta"@.len() == 4,
        "super"@.len() == 5,
        "cmd"@.len() == 3,
        "command"@.len() == 7,
        "up"@[1] == 'p',
        "f1"@[1] == '1',
        "f2"@[1] == '2',
        "f3"@[1] == '3',
        "f4"@[1] == '4',
        "f5"@[1] == '5',
        "f6"@[1] == '6',
        "f7"@[1] == '7',
        "f8"@[1] == '8',
        "f9"@[1] == '9',
        "esc"@[0] == 'e' && "esc"@[2] == 'c',
        "tab"@[0] == 't' && "tab"@[2] == 'b',
        "del"@[0] == 'd' && "del"@[2] == 'l',
        "end"@[0] == 'e' && "end"@[2] == 'd',
        "f10"@[0] == 'f' && "f10"@[2] == '0',
        "f11"@[0] == 'f' && "f11"@[2] == '1',
        "f12"@[0] == 'f' && "f12"@[2] == '2',
        "alt"@[0] == 'a' && "alt"@[2] == 't',
        "cmd"@[0] == 'c' && "cmd"@[2] == 'd',
        "home"@[0] == 'h',
        "left"@[0] == 'l',
        "down"@[0] == 'd',
        "ctrl"@[0] == 'c',
        "meta"@[0] == 'm',
        "enter"@[1] == 'n',
        "space"@[1] == 'p',
        "right"@[1] == 'i',
        "shift"@[1] == 'h',
        "super"@[1] == 'u',
        "return"@[0] == 'r',
        "escape"@[0] == 'e',
        "delete"@[0] == 'd',
        "pageup"@[0] == 'p',
        "option"@[0] == 'o',
        "page_up"@[2] == 'g',
        "arrowup"@[2] == 'r',
        "control"@[2] == 'n',
        "command"@[2] == 'm',
        "backspace"@[0] == 'b' && "backspace"@[5] == 'p',
        "page_down"@[0] == 'p' && "page_down"@[5] == 'd',
        "arrowleft"@[0] == 'a' && "arrowleft"@[5] == 'l',
        "arrowdown"@[0] == 'a' && "arrowdown"@[5] == 'd',
{
    reveal_strlit("enter");
    reveal_strlit("return");
    reveal_strlit("escape");
    reveal_strlit("esc");
    reveal_strlit("tab");
    reveal_strlit("backspace");
    reveal_strlit("delete");
    reveal_strlit("del");
    reveal_strlit("space");
    reveal_strlit("home");
    reveal_strlit("end");
    reveal_strlit("pageup");
    reveal_strlit("page_up");
    reveal_strlit("pagedown");
    reveal_strlit("page_down");
    reveal_strlit("arrowleft");
    reveal_strlit("left");
    reveal_strlit("arrowright");
    reveal_strlit("right");
    reveal_strlit("arrowup");
    reveal_strlit("up");
    reveal_strlit("arrowdown");
    reveal_strlit("down");
    reveal_strlit("f1");
    reveal_strlit("f2");
    reveal_strlit("f3");
    reveal_strlit("f4");
    reveal_strlit("f5");
    reveal_strlit("f6");
    reveal_strlit("f7");
    reveal_strlit("f8");
    reveal_strlit("f9");
    reveal_strlit("f10");
    reveal_strlit("f11");
    reveal_strlit("f12");
    reveal_strlit("ctrl");
    reveal_strlit("control");
    reveal_strlit("alt");
    reveal_strlit("option");
    reveal_strlit("shift");
    reveal_strlit("meta");
    reveal_strlit("super");
    reveal_strlit("cmd");
    reveal_strlit("command");
}

proof fn names_stand_for_the_kernels_keys(k: Seq<char>)
    ensures
        k == "enter"@ ==> key_named(k) == Some(KEY_ENTER),
        k == "return"@ ==> key_named(k) == Some(KEY_ENTER),
        k == "escape"@ ==> key_named(k) == Some(KEY_ESC),
        k == "esc"@ ==> key_named(k) == Some(KEY_ESC),
        k == "tab"@ ==> key_named(k) == Some(KEY_TAB),
        k == "backspace"@ ==> key_named(k) == Some(KEY_BACKSPACE),
        k == "delete"@ ==> key_named(k) == Some(KEY_DELETE),
        k == "del"@ ==> key_named(k) == Some(KEY_DELETE),
        k == "space"@ ==> key_named(k) == Some(KEY_SPACE),
        k == "home"@ ==> key_named(k) == Some(KEY_HOME),
        k == "end"@ ==> key_named(k) == Some(KEY_END),
        k == "pageup"@ ==> key_named(k) == Some(KEY_PAGEUP),
        k == "page_up"@ ==> key_named(k) == Some(KEY_PAGEUP),
        k == "pagedown"@ ==> key_named(k) == Some(KEY_PAGEDOWN),
        k == "page_down"@ ==> key_named(k) == Some(KEY_PAGEDOWN),
        k == "arrowleft"@ ==> key_named(k) == Some(KEY_LEFT),
        k == "left"@ ==> key_named(k) == Some(KEY_LEFT),
        k == "arrowright"@ ==> key_named(k) == Some(KEY_RIGHT),
        k == "right"@ ==> key_named(k) == Some(KEY_RIGHT),
        k == "arrowup"@ ==> key_named(k) == Some(KEY_UP),
        k == "up"@ ==> key_named(k) == Some(KEY_UP),
        k == "arrowdown"@ ==> key_named(k) == Some(KEY_DOWN),
        k == "down"@ ==> key_named(k) == Some(KEY_DOWN),
        k.len() != 1 && key_named(k) is Some ==> k == "enter"@
            || k == "return"@
            || k == "escape"@
            || k == "esc"@
            || k == "tab"@
            || k == "backspace"@
            || k == "delete"@
            || k == "del"@
            || k == "space"@
            || k == "home"@
            || k == "end"@
            || k == "pageup"@
            || k == "page_up"@
            || k == "pagedown"@
            || k == "page_down"@
            || k == "arrowleft"@
            || k == "left"@
            || k == "arrowright"@
            || k == "right"@
            || k == "arrowup"@
            || k == "up"@
            || k == "arrowdown"@
            || k == "down"@
            || k == "f1"@
            || k == "f2"@
            || k == "f3"@
            || k == "f4"@
            || k == "f5"@
            || k == "f6"@
            || k == "f7"@
            || k == "f8"@
            || k == "f9"@
            || k == "f10"@
            || k == "f11"@
            || k == "f12"@,
{
    key_names_are_spelled_apart();
    assert(key_named("enter"@) == Some(KEY_ENTER));
    assert(key_named("return"@) == Some(KEY_ENTER));
    assert(key_named("escape"@) == Some(KEY_ESC));
    assert(key_named("esc"@) == Some(KEY_ESC));
    assert(key_named("tab"@) == Some(KEY_TAB));
    assert(key_named("backspace"@) == Some(KEY_BACKSPACE));
    assert(key_named("delete"@) == Some(KEY_DELETE));
    assert(key_named("del"@) == Some(KEY_DELETE));
    assert(key_named("space"@) == Some(KEY_SPACE));
    assert(key_named("home"@) == Some(KEY_HOME));
    assert(key_named("end"@) == Some(KEY_END));
    assert(key_named("pageup"@) == Some(KEY_PAGEUP));
    assert(key_named("page_up"@) == Some(KEY_PAGEUP));
    assert(key_named("pagedown"@) == Some(KEY_PAGEDOWN));
    assert(key_named("page_down"@) == Some(KEY_PAGEDOWN));
    assert(key_named("arrowleft"@) == Some(KEY_LEFT));
    assert(key_named("left"@) == Some(KEY_LEFT));
    assert(key_named("arrowright"@) == Some(KEY_RIGHT));
    assert(key_named("right"@) == Some(KEY_RIGHT));
    assert(key_named("arrowup"@) == Some(KEY_UP));
    assert(key_named("up"@) == Some(KEY_UP));
    assert(key_named("arrowdown"@) == Some(KEY_DOWN));
    assert(key_named("down"@) == Some(KEY_DOWN));
}

/// A key that has a name is the kernel's key of that name, whatever the letter case of the
/// name and whatever hyphens and spaces are in it.
pub proof fn a_named_key_is_the_kernels_key_of_that_name(key: Seq<char>)
    ensures
        normal_key(key) == "enter"@ || normal_key(key) == "return"@
            ==> key_code(key) == Some(KEY_ENTER),
        normal_key(key) == "escape"@ || normal_key(key) == "esc"@
            ==> key_code(key) == Some(KEY_ESC),
        normal_key(key) == "tab"@ ==> key_code(key) == Some(KEY_TAB),
        normal_key(key) == "backspace"@ ==> key_code(key) == Some(KEY_BACKSPACE),
        normal_key(key) == "delete"@ || normal_key(key) == "del"@
            ==> key_code(key) == Some(KEY_DELETE),
        normal_key(key) == "space"@ ==> key_code(key) == Some(KEY_SPACE),
        normal_key(key) == "home"@ ==> key_code(key) == Some(KEY_HOME),
        normal_key(key) == "end"@ ==> key_code(key) == Some(KEY_END),
        normal_key(key) == "pageup"@ || normal_key(key) == "page_up"@
            ==> key_code(key) == Some(KEY_PAGEUP),
        normal_key(key) == "pagedown"@ || normal_key(key) == "page_down"@
            ==> key_code(key) == Some(KEY_PAGEDOWN),
        normal_key(key) == "arrowleft"@ || normal_key(key) == "left"@
            ==> key_code(key) == Some(KEY_LEFT),
        normal_key(key) == "arrowright"@ || normal_key(key) == "right"@
            ==> key_code(key) == Some(KEY_RIGHT),
        normal_key(key) == "arrowup"@ || normal_key(key) == "up"@
            ==> key_code(key) == Some(KEY_UP),
        normal_key(key) == "arrowdown"@ || normal_key(key) == "down"@
            ==> key_code(key) == Some(KEY_DOWN),
{
    names_stand_for_the_kernels_keys(normal_key(key));
}

/// The keys for moving about are numbered in the order of the keypad they come from, left
/// to right and top to bottom: Home, up, Page Up; left, right; End, down, Page Down. So no
/// two of them are one key.
pub proof fn keys_for_moving_about_are_numbered_in_keypad_order(key: Seq<char>, i: int)
    requires
        0 <= i < 8,
        normal_key(key) == seq![
            "home"@,
            "up"@,
            "pageup"@,
            "left"@,
            "right"@,
            "end"@,
            "down"@,
            "pagedown"@,
        ][i],
    ensures
        key_code(key) == Some((KEY_HOME + i) as u16),
{
    names_stand_for_the_kernels_keys(normal_key(key));
}

/// The function keys are numbered on from F1 to F10 and from F11 to F12.
pub proof fn function_keys_are_numbered_on(key: Seq<char>, n: int)
    requires
        1 <= n <= 12,
        normal_key(key) == "f"@ + decimal(n),
    ensures
        n <= 10 ==> key_code(key) == Some((KEY_F1 + n - 1) as u16),
        n > 10 ==> key_code(key) == Some((KEY_F11 + n - 11) as u16),
{
    let k = normal_key(key);
    reveal_strlit("f");
    reveal_with_fuel(digits, 3);
    assert(n < 10 ==> decimal(n) =~= seq![digit_char(n)]);
    assert(n >= 10 ==> decimal(n) =~= seq!['1', digit_char(n - 10)]);
    assert(k.len() == if n < 10 { 2int } else { 3int });
    assert(k[0] == 'f');
    assert(n < 10 ==> k[1] == digit_char(n));
    assert(n >= 10 ==> k[1] == '1' && k[2] == digit_char(n - 10));
    key_names_are_spelled_apart();
    reveal_strlit("f1");
    reveal_strlit("f2");
    reveal_strlit("f3");
    reveal_strlit("f4");
    reveal_strlit("f5");
    reveal_strlit("f6");
    reveal_strlit("f7");
    reveal_strlit("f8");
    reveal_strlit("f9");
    reveal_strlit("f10");
    reveal_strlit("f11");
    reveal_strlit("f12");
    assert(n == 1 ==> k =~= "f1"@);
    assert(n == 2 ==> k =~= "f2"@);
    assert(n == 3 ==> k =~= "f3"@);
    assert(n == 4 ==> k =~= "f4"@);
    assert(n == 5 ==> k =~= "f5"@);
    assert(n == 6 ==> k =~= "f6"@);
    assert(n == 7 ==> k =~= "f7"@);
    assert(n == 8 ==> k =~= "f8"@);
    assert(n == 9 ==> k =~= "f9"@);
    assert(n == 10 ==> k =~= "f10"@);
    assert(n == 11 ==> k =~= "f11"@);
    assert(n == 12 ==> k =~= "f12"@);
}

/// The letters and digits are numbered along the rows of a US keyboard, each row from its
/// first key on.
pub proof fn letters_and_digits_are_numbered_along_the_rows(i: int)
    ensures
        0 <= i < 10 ==> character_code("qwertyuiop"@[i]) == Some((KEY_Q + i) as u16),
        0 <= i < 9 ==> character_code("asdfghjkl"@[i]) == Some((KEY_A + i) as u16),
        0 <= i < 7 ==> character_code("zxcvbnm"@[i]) == Some((KEY_Z + i) as u16),
        0 <= i < 10 ==> character_code("1234567890"@[i]) == Some((KEY_1 + i) as u16),
        "qwertyuiop"@.len() == 10 && "asdfghjkl"@.len() == 9 && "zxcvbnm"@.len() == 7
            && "1234567890"@.len() == 10,
{
    reveal_strlit("qwertyuiop");
    reveal_strlit("asdfghjkl");
    reveal_strlit("zxcvbnm");
    reveal_strlit("1234567890");
}

/// A single character is the key that types it, and there is one for each letter, small or
/// capital, and each digit, and for no other character.
pub proof fn a_character_is_the_key_that_types_it(c: char)
    requires
        c != '-',
        !is_white(c),
    ensures
        'a' <= c <= 'z' || '0' <= c <= '9' ==> key_code(seq![c]) is Some && key_code(seq![c])
            == character_code(c),
        'A' <= c <= 'Z' ==> key_code(seq![c]) is Some && key_code(seq![c]) == character_code(
            lower_char(c),
        ),
        !('a' <= c <= 'z' || '0' <= c <= '9' || 'A' <= c <= 'Z') ==> key_code(seq![c]) is None,
{
    let s = seq![c];
    trim_keeps(s);
    let low = lower(s);
    assert(low =~= seq![lower_char(c)]);
    let drop = seq!['-', ' '];
    assert(!drop.contains(lower_char(c)));
    reveal_with_fuel(without_chars, 2);
    assert(low.drop_last() =~= Seq::empty());
    assert(Seq::<char>::empty().push(lower_char(c)) =~= low);
    assert(normal_key(s) == low);
    key_names_are_spelled_apart();
}

/// A name that is neither a character nor one of the names a key goes by is refused.
pub proof fn no_other_name_is_a_key(key: Seq<char>)
    ensures
        key_code(key) is Some ==> normal_key(key).len() == 1 || normal_key(key) == "enter"@
            || normal_key(key) == "return"@
            || normal_key(key) == "escape"@
            || normal_key(key) == "esc"@
            || normal_key(key) == "tab"@
            || normal_key(key) == "backspace"@
            || normal_key(key) == "delete"@
            || normal_key(key) == "del"@
            || normal_key(key) == "space"@
            || normal_key(key) == "home"@
            || normal_key(key) == "end"@
            || normal_key(key) == "pageup"@
            || normal_key(key) == "page_up"@
            || normal_key(key) == "pagedown"@
            || normal_key(key) == "page_down"@
            || normal_key(key) == "arrowleft"@
            || normal_key(key) == "left"@
            || normal_key(key) == "arrowright"@
            || normal_key(key) == "right"@
            || normal_key(key) == "arrowup"@
            || normal_key(key) == "up"@
            || normal_key(key) == "arrowdown"@
            || normal_key(key) == "down"@
            || normal_key(key) == "f1"@
            || normal_key(key) == "f2"@
            || normal_key(key) == "f3"@
            || normal_key(key) == "f4"@
            || normal_key(key) == "f5"@
            || normal_key(key) == "f6"@
            || normal_key(key) == "f7"@
            || normal_key(key) == "f8"@
            || normal_key(key) == "f9"@
            || normal_key(key) == "f10"@
            || normal_key(key) == "f11"@
            || normal_key(key) == "f12"@,
{
    names_stand_for_the_kernels_keys(normal_key(key));
}

/// A modifier is the kernel's left key of that name, under each of the names it goes by, and
/// nothing else is a modifier.
pub proof fn a_modifier_is_the_kernels_left_key(key: Seq<char>)
    ensures
        normal_key(key) == "ctrl"@ || normal_key(key) == "control"@
            <==> modifier_code(key) == Some(KEY_LEFTCTRL),
        normal_key(key) == "alt"@ || normal_key(key) == "option"@
            <==> modifier_code(key) == Some(KEY_LEFTALT),
        normal_key(key) == "shift"@ <==> modifier_code(key) == Some(KEY_LEFTSHIFT),
        normal_key(key) == "meta"@ || normal_key(key) == "super"@ || normal_key(key) == "cmd"@
            || normal_key(key) == "command"@ <==> modifier_code(key) == Some(KEY_LEFTMETA),
        modifier_code(key) is Some ==> modifier_code(key) == Some(KEY_LEFTCTRL)
            || modifier_code(key) == Some(KEY_LEFTALT) || modifier_code(key) == Some(KEY_LEFTSHIFT) || modifier_code(key)
            == Some(KEY_LEFTMETA),
{
    key_names_are_spelled_apart();
}

proof fn without_chars_filters(s: Seq<char>, drop: Seq<char>)
    ensures
        without_chars(s, drop) == s.filter(|c: char| !drop.contains(c)),
    decreases s.len(),
{
    reveal(Seq::filter);
    if s.len() > 0 {
        without_chars_filters(s.drop_last(), drop);
    }
}

/// A key's name counts as the characters of it that are neither hyphens nor spaces, without
/// the whitespace around it and in small letters.
pub proof fn a_name_counts_without_hyphens_and_spaces(key: Seq<char>)
    ensures
        normal_key(key) == lower(trim(key)).filter(|c: char| c != '-' && c != ' '),
{
    let drop = seq!['-', ' '];
    without_chars_filters(lower(trim(key)), drop);
    assert(drop[0] == '-' && drop[1] == ' ');
    assert((|c: char| !drop.contains(c)) =~= (|c: char| c != '-' && c != ' '));
}

proof fn modifier_codes_come_one_by_one(name: Seq<char>, parts: Seq<Seq<char>>)
    ensures
        match (modifier_code(name), modifier_codes(parts)) {
            (Some(code), Some(codes)) => modifier_codes(seq![name] + parts) == Some(
                seq![code] + codes,
            ),
            _ => modifier_codes(seq![name] + parts) is None,
        },
    decreases parts.len(),
{
    let whole = seq![name] + parts;
    if parts.len() == 0 {
        assert(whole =~= seq![name]);
        assert(whole.drop_last() =~= Seq::empty());
        assert(modifier_codes(whole.drop_last()) == Some(Seq::<u16>::empty()));
        if modifier_code(name) is Some {
            let code = modifier_code(name)->0;
            assert(Seq::<u16>::empty().push(code) =~= seq![code] + Seq::<u16>::empty());
        }
    } else {
        modifier_codes_come_one_by_one(name, parts.drop_last());
        assert(whole.drop_last() =~= seq![name] + parts.drop_last());
        if modifier_code(name) is Some && modifier_codes(parts) is Some {
            let code = modifier_code(name)->0;
            let before = modifier_codes(parts.drop_last())->0;
            let last = modifier_code(parts.last())->0;
            assert((seq![code] + before).push(last) =~= seq![code] + before.push(last));
        }
    }
}

/// A name without a plus sign strikes that key alone, with no modifier held; a modifier alone
/// is struck itself.
pub proof fn a_single_name_strikes_its_key_alone(key: Seq<char>)
    requires
        forall|i: int| 0 <= i < key.len() ==> #[trigger] key[i] != '+',
    ensures
        modifier_code(key) is Some ==> chord(key) == Some(
            (Seq::<u16>::empty(), modifier_code(key)->0),
        ),
        modifier_code(key) is None && key_code(key) is Some ==> chord(key) == Some(
            (Seq::<u16>::empty(), key_code(key)->0),
        ),
        modifier_code(key) is None && key_code(key) is None ==> chord(key) is None,
{
    unseparated_text_is_one_piece(key, seq!['+']);
    assert(seq![key].drop_last() =~= Seq::empty());
}

/// A modifier and a plus sign before a chord hold the modifier around it: its code goes
/// first among those held, and the key struck is the same. Anything else before a plus sign
/// makes the whole no chord.
pub proof fn a_modifier_before_a_chord_is_held_around_it(name: Seq<char>, rest: Seq<char>)
    requires
        forall|i: int| 0 <= i < name.len() ==> #[trigger] name[i] != '+',
        modifier_code(rest) is None || key_code(rest) is Some || exists|i: int|
            0 <= i < rest.len() && #[trigger] rest[i] == '+',
    ensures
        match (modifier_code(name), chord(rest)) {
            (Some(code), Some((held, struck))) => chord(name.push('+') + rest) == Some(
                (seq![code] + held, struck),
            ),
            _ => chord(name.push('+') + rest) is None,
        },
{
    let seps = seq!['+'];
    let parts = split(rest, seps);
    unseparated_text_is_one_piece(name, seps);
    assert(seps[0] == '+');
    pieces_meet_at_a_separator(name, '+', rest, seps);
    joining_undoes_splitting(rest, '+');
    let whole = seq![name] + parts;
    assert(parts.len() > 0) by {
        if parts.len() == 0 {
            assert(join(parts, seps) =~= Seq::empty());
            assert(rest.len() == 0);
            assert(split(rest, seps).len() == 1);
        }
    }
    assert(whole.drop_last() =~= seq![name] + parts.drop_last());
    assert(whole.last() == parts.last());
    modifier_codes_come_one_by_one(name, parts.drop_last());
    if parts.len() == 1 {
        assert(join(parts, seps) == parts[0]);
        names_are_not_both(rest);
        assert forall|i: int| 0 <= i < rest.len() implies #[trigger] rest[i] != '+' by {
            if rest[i] == '+' {
                let a = rest.take(i);
                let b = rest.skip(i + 1);
                assert(rest =~= a.push('+') + b);
                pieces_meet_at_a_separator(a, '+', b, seps);
                joining_undoes_splitting(a, '+');
                joining_undoes_splitting(b, '+');
                a_text_has_a_piece(a, seps);
                a_text_has_a_piece(b, seps);
            }
        }
    }
}

proof fn names_are_not_both(key: Seq<char>)
    ensures
        modifier_code(key) is Some ==> key_code(key) is None,
{
    key_names_are_spelled_apart();
}

proof fn a_text_has_a_piece(s: Seq<char>, seps: Seq<char>)
    ensures
        split(s, seps).len() > 0,
    decreases s.len(),
{
    if s.len() > 0 {
        a_text_has_a_piece(s.drop_last(), seps);
    }
}

/// A chord goes down modifier by modifier, strikes its key once, and comes up in the opposite
/// order, so that what went down first comes up last.
pub proof fn a_chord_comes_up_as_it_went_down(held: Seq<u16>, struck: u16)
    ensures
        ({
            let events = chord_events(held, struck);
            let n = held.len() as int;
            &&& events.len() == 2 * n + 2
            &&& events[n] == (struck, true)
            &&& events[n + 1] == (struck, false)
            &&& forall|i: int|
                #![trigger held[i]]
                0 <= i < n ==> events[i] == (held[i], true) && events[2 * n + 1 - i] == (
                    held[i],
                    false,
                )
        }),
{
    let events = chord_events(held, struck);
    let n = held.len() as int;
    assert forall|i: int| #![trigger held[i]] 0 <= i < n implies events[i] == (held[i], true)
        && events[2 * n + 1 - i] == (held[i], false) by {
        assert(held.reverse()[n - 1 - i] == held[i]);
        assert(presses(held.reverse(), false)[n - 1 - i] == (held[i], false));
    }
}

/// The modifiers held are those named, each by its code, and no other; they are held exactly
/// when every name is a modifier's.
pub proof fn held_modifiers_are_those_named(modifiers: Seq<Seq<char>>)
    ensures
        held_modifiers(modifiers) is Ok <==> forall|i: int|
            0 <= i < modifiers.len() ==> modifier_code(#[trigger] modifiers[i]) is Some,
        held_modifiers(modifiers) is Ok ==> {
            let codes = held_modifiers(modifiers)->Ok_0;
            &&& forall|i: int|
                0 <= i < modifiers.len() ==> codes.contains(
                    modifier_code(#[trigger] modifiers[i])->0,
                )
            &&& forall|c: int|
                0 <= c < codes.len() ==> exists|i: int|
                    0 <= i < modifiers.len() && modifier_code(#[trigger] modifiers[i]) == Some(
                        #[trigger] codes[c],
                    )
        },
    decreases modifiers.len(),
{
    if modifiers.len() > 0 {
        let rest = modifiers.drop_last();
        held_modifiers_are_those_named(rest);
        assert forall|i: int| 0 <= i < rest.len() implies #[trigger] modifiers[i] == rest[i] by {}
        let last = modifiers.len() - 1;
        if held_modifiers(rest) is Err {
            let i = choose|i: int|
                0 <= i < rest.len() && !(modifier_code(#[trigger] rest[i]) is Some);
            assert(modifier_code(modifiers[i]) is None);
        } else if modifier_code(modifiers[last]) is Some {
            let before = held_modifiers(rest)->Ok_0;
            let codes = held_modifiers(modifiers)->Ok_0;
            let code = modifier_code(modifiers[last])->0;
            assert(before.push(code).last() == code);
            assert forall|i: int| 0 <= i < modifiers.len() implies codes.contains(
                modifier_code(#[trigger] modifiers[i])->0,
            ) by {
                if i < last {
                    assert(modifiers[i] == rest[i]);
                    let c = before.index_of(modifier_code(rest[i])->0);
                    assert(before.contains(modifier_code(rest[i])->0));
                    assert(codes[c] == before[c]);
                } else if !before.contains(code) {
                    assert(codes[codes.len() - 1] == code);
                }
            }
            assert forall|c: int| 0 <= c < codes.len() implies exists|i: int|
                0 <= i < modifiers.len() && modifier_code(#[trigger] modifiers[i]) == Some(
                    #[trigger] codes[c],
                ) by {
                if c < before.len() {
                    assert(codes[c] == before[c]);
                    let i = choose|i: int|
                        0 <= i < rest.len() && modifier_code(#[trigger] rest[i]) == Some(before[c]);
                    assert(modifiers[i] == rest[i]);
                } else {
                    assert(modifier_code(modifiers[last]) == Some(codes[c]));
                }
            }
        }
    }
}

/// The keys of two lists, one after the other, are those of the first and then those of the
/// second; a blank entry is no key, and any other is the key it names, without the
/// whitespace around it.
pub proof fn keys_are_sent_in_the_order_given(p: Seq<Seq<char>>, q: Seq<Seq<char>>, key: Seq<char>)
    ensures
        filled_parts(p + q) == filled_parts(p) + filled_parts(q),
        is_blank(key) ==> filled_parts(seq![key]).len() == 0,
        !is_blank(key) ==> filled_parts(seq![key]) == seq![trim(key)],
    decreases q.len(),
{
    assert(seq![key].drop_last() =~= Seq::empty());
    assert(filled_parts(Seq::<Seq<char>>::empty()) =~= Seq::empty());
    assert(Seq::<Seq<char>>::empty().push(trim(key)) =~= seq![trim(key)]);
    if q.len() == 0 {
        assert(p + q =~= p);
        assert(filled_parts(p) + filled_parts(q) =~= filled_parts(p));
    } else {
        keys_are_sent_in_the_order_given(p, q.drop_last(), key);
        assert((p + q).drop_last() =~= p + q.drop_last());
        assert(filled_parts(p + q) =~= filled_parts(p) + filled_parts(q));
    }
}

} // verus!

//! Hyprland: reading what `hyprctl` prints and writing what it is told.

use vstd::prelude::*;
use vstd::string::StringExecFns;
use crate::command::CommandOutput;
use crate::numerals::{
    decimal, decimal_reads_back, digits, digits_are_visible, digits_have_no_space_or_letter, hex,
    hex_of, parse_signed, parse_unsigned, signed_decimal_of, signed_of, unsigned_of,
};
use crate::text::{
    after_prefix, cat, chars_of, debug_of, debug_text, is_white, lines, lines_end_at_line_feeds,
    lines_of, lossy, lossy_text, pieces_meet_at_a_separator, same, split, split_at_any, starts_with,
    string_of, text_of, texts, trim, trim_keeps, trim_start, trimmed, unseparated_text_is_one_piece,
    unspaced_text_is_one_word, words, words_of, words_part_at_whitespace,
};
use crate::terminal::{enrich_terminal_windows, is_enriched, TerminalWindowContext};
use crate::windowing::registry::BackendProbe;
use crate::windowing::types::{
    WindowBounds, WindowInfo, WindowOcclusion, WorkspaceSummary, WorkspaceTarget,
};

verus! {

/// The name windows of this backend carry.
pub const HYPRLAND_BACKEND: &'static str = "hyprland";

/// How often a requested change is looked for before it is given up.
pub const GEOMETRY_VERIFY_ATTEMPTS: usize = 11;

/// How long to wait between two looks, in milliseconds.
pub const GEOMETRY_VERIFY_DELAY_MS: u64 = 50;

/// The oldest Hyprland this build can drive: the release that introduced the
/// Lua dispatchers, and stopped parsing the string ones. Everything this
/// server dispatches -- focus, move, resize, float -- speaks the Lua form, so
/// an older compositor rejects all of it.
pub const MINIMUM_HYPRLAND_RELEASE: (u32, u32) = (0, 55);

/// Whether a text is a JSON document that is an array.
pub uninterp spec fn is_json_array(text: Seq<char>) -> bool;

/// `serde_json::from_str` into a `Value`: whether the text parses, and as an array. Which
/// texts do is JSON's grammar, and is not spelled out here.
#[verifier::external_body]
fn parses_as_array(text: &str) -> (r: bool)
    ensures
        r == is_json_array(text@),
{
    matches!(serde_json::from_str::<serde_json::Value>(text), Ok(serde_json::Value::Array(_)))
}

/// What a probe says whose `hyprctl clients -j` ran without error.
pub open spec fn array_words(is_array: bool) -> Seq<char> {
    if is_array {
        "hyprctl clients -j returned a JSON array"@
    } else {
        "hyprctl clients -j did not return a JSON array"@
    }
}

/// Whether a probe states one capability everywhere, with the given detail.
pub open spec fn states(probe: BackendProbe, ok: bool, detail: Seq<char>) -> bool {
    &&& probe.id@ == HYPRLAND_BACKEND@
    &&& probe.ok == ok
    &&& probe.can_list_windows == ok
    &&& probe.can_focus_apps == ok
    &&& probe.can_focus_windows == ok
    &&& probe.detail@ == detail
}

/// Whether a probe is the one due after `hyprctl clients -j` went as given.
pub open spec fn probed(clients: Result<CommandOutput, String>, probe: BackendProbe) -> bool {
    match clients {
        Ok(output) => if output.success {
            let ok = is_json_array(lossy_text(output.stdout@));
            states(probe, ok, array_words(ok))
        } else {
            states(probe, false, output.complaint_or_out())
        },
        Err(error) => states(probe, false, error@),
    }
}

/// A probe that states one capability everywhere.
fn probe_of(ok: bool, detail: String) -> (r: BackendProbe)
    ensures
        states(r, ok, detail@),
{
    BackendProbe {
        id: HYPRLAND_BACKEND,
        ok,
        can_list_windows: ok,
        can_focus_apps: ok,
        can_focus_windows: ok,
        detail,
    }
}

/// The probe of a backend whose client list came as an array, or did not.
pub fn probe_of_reply(is_array: bool) -> (r: BackendProbe)
    ensures
        states(r, is_array, array_words(is_array)),
{
    probe_of(
        is_array,
        if is_array {
            "hyprctl clients -j returned a JSON array".to_owned()
        } else {
            "hyprctl clients -j did not return a JSON array".to_owned()
        },
    )
}

/// What the backend can do, by how `hyprctl clients -j` went.
pub fn probe(clients: &Result<CommandOutput, String>) -> (r: BackendProbe)
    ensures
        probed(*clients, r),
{
    match clients {
        Ok(output) => if output.success {
            probe_of_reply(parses_as_array(&lossy(&output.stdout)))
        } else {
            probe_of(false, output.message())
        },
        Err(error) => probe_of(false, error.clone()),
    }
}

/// A Hyprland release as `hyprctl version` states it.
#[derive(Debug, PartialEq, Eq)]
pub struct HyprlandRelease {
    pub major: u32,
    pub minor: u32,
    /// The version as printed, e.g. `0.56.2`.
    pub printed: String,
}

impl Clone for HyprlandRelease {
    fn clone(&self) -> (r: Self)
        ensures
            r == *self,
    {
        HyprlandRelease { major: self.major, minor: self.minor, printed: self.printed.clone() }
    }
}

impl HyprlandRelease {
    /// Whether a release is the minimum one or a later.
    pub open spec fn is_recent(self) -> bool {
        self.major > MINIMUM_HYPRLAND_RELEASE.0 || (self.major == MINIMUM_HYPRLAND_RELEASE.0
            && self.minor >= MINIMUM_HYPRLAND_RELEASE.1)
    }

    /// Whether this release speaks the Lua dispatchers, which is every
    /// dispatch this server makes.
    pub fn drives_lua_dispatchers(&self) -> (r: bool)
        ensures
            r == self.is_recent(),
    {
        self.major > MINIMUM_HYPRLAND_RELEASE.0 || (self.major == MINIMUM_HYPRLAND_RELEASE.0
            && self.minor >= MINIMUM_HYPRLAND_RELEASE.1)
    }
}

/// A word without the letters `v` it starts with.
pub open spec fn without_v(word: Seq<char>) -> Seq<char>
    decreases word.len(),
{
    if word.len() > 0 && word[0] == 'v' {
        without_v(word.drop_first())
    } else {
        word
    }
}

/// Whether a word is a version: it starts with a digit, after any letters `v`.
pub open spec fn is_version(word: Seq<char>) -> bool {
    without_v(word).len() > 0 && '0' <= without_v(word)[0] <= '9'
}

/// The first version among some words.
pub open spec fn first_version(list: Seq<Seq<char>>) -> Option<Seq<char>>
    decreases list.len(),
{
    if list.len() == 0 {
        None
    } else {
        match first_version(list.drop_last()) {
            Some(word) => Some(word),
            None => if is_version(list.last()) {
                Some(without_v(list.last()))
            } else {
                None
            },
        }
    }
}

/// The release a version banner names: its first two numbers and the version as printed.
pub open spec fn release_named(banner: Seq<char>) -> Option<(int, int, Seq<char>)> {
    if lines(banner).len() == 0 {
        None
    } else {
        match first_version(words(lines(banner)[0])) {
            None => None,
            Some(printed) => {
                let numbers = split(printed, seq!['.', '-', '+']);
                if numbers.len() < 2 {
                    None
                } else {
                    match (
                        parse_unsigned(numbers[0], 10, u32::MAX as int),
                        parse_unsigned(numbers[1], 10, u32::MAX as int),
                    ) {
                        (Some(major), Some(minor)) => Some((major, minor, printed)),
                        _ => None,
                    }
                }
            },
        }
    }
}

/// Whether a release has the given numbers and printed form.
pub open spec fn is_release(
    r: Option<HyprlandRelease>,
    due: Option<(int, int, Seq<char>)>,
) -> bool {
    match r {
        Some(release) => due == Some(
            (release.major as int, release.minor as int, release.printed@),
        ),
        None => due is None,
    }
}

/// The release that a run of `hyprctl version` tells of.
pub open spec fn release_read(version: Result<CommandOutput, String>) -> Option<
    (int, int, Seq<char>),
> {
    match version {
        Ok(output) => if output.success {
            release_named(lossy_text(output.stdout@))
        } else {
            None
        },
        Err(_) => None,
    }
}

fn strip_v(word: &str) -> (r: String)
    ensures
        r@ == without_v(word@),
{
    let v = chars_of(word);
    let mut from: usize = 0;
    assert(v@.skip(0) =~= word@);
    while from < v.len() && v[from] == 'v'
        invariant
            from <= v@.len(),
            without_v(v@.skip(from as int)) == without_v(word@),
        decreases v@.len() - from,
    {
        assert(v@.skip(from as int).drop_first() =~= v@.skip(from + 1));
        from = from + 1;
    }
    assert(v@.skip(from as int) =~= v@.subrange(from as int, v@.len() as int));
    string_of(&v, from, v.len())
}

/// The first version among some words.
fn find_version(list: &[String]) -> (r: Option<String>)
    ensures
        text_of(r) == first_version(texts(list@)),
{
    let mut found: Option<String> = None;
    assert(texts(list@.take(0)) =~= Seq::empty());
    for i in 0..list.len()
        invariant
            text_of(found) == first_version(texts(list@.take(i as int))),
    {
        let ghost now = texts(list@.take(i + 1));
        assert(now.drop_last() =~= texts(list@.take(i as int)));
        assert(now.last() == list@[i as int]@);
        if found.is_none() {
            let bare = strip_v(&list[i]);
            let v = chars_of(&bare);
            if v.len() > 0 && '0' <= v[0] && v[0] <= '9' {
                found = Some(bare);
            }
        }
    }
    assert(list@.take(list@.len() as int) =~= list@);
    found
}

/// `hyprctl version` opens with `Hyprland 0.56.2 built from branch ...`; a
/// tagged build may print `v0.56.2`, and a development build may carry a
/// suffix after the patch number. Only the first two numbers decide.
pub fn parse_release(output: &str) -> (r: Option<HyprlandRelease>)
    ensures
        is_release(r, release_named(output@)),
{
    let all = lines_of(output);
    if all.len() == 0 {
        return None;
    }
    assert(texts(all@)[0] == all@[0]@);
    let printed = match find_version(&words_of(&all[0])) {
        Some(printed) => printed,
        None => return None,
    };
    let seps: [char; 3] = ['.', '-', '+'];
    assert(seps@ =~= seq!['.', '-', '+']);
    let numbers = split_at_any(&printed, &seps);
    if numbers.len() < 2 {
        return None;
    }
    assert(texts(numbers@)[0] == numbers@[0]@ && texts(numbers@)[1] == numbers@[1]@);
    match (
        unsigned_of(&numbers[0], 10, u32::MAX as u64),
        unsigned_of(&numbers[1], 10, u32::MAX as u64),
    ) {
        (Some(major), Some(minor)) => Some(
            HyprlandRelease { major: major as u32, minor: minor as u32, printed },
        ),
        _ => None,
    }
}

/// The running Hyprland release, from the first line of `hyprctl version`.
/// `None` when hyprctl cannot be run or its version line cannot be read.
pub fn release(version: &Result<CommandOutput, String>) -> (r: Option<HyprlandRelease>)
    ensures
        is_release(r, release_read(*version)),
{
    match version {
        Ok(output) => if output.success {
            parse_release(&lossy(&output.stdout))
        } else {
            None
        },
        Err(_) => None,
    }
}

/// The workspace a client is on, as `hyprctl clients -j` gives it.
#[derive(Debug, Clone, Copy)]
pub struct HyprlandWorkspace {
    pub id: Option<i32>,
}

/// A client as `hyprctl clients -j` gives it.
#[derive(Debug)]
pub struct HyprlandClient {
    pub address: String,
    pub mapped: Option<bool>,
    pub hidden: Option<bool>,
    pub at: Option<[i32; 2]>,
    pub size: Option<[u32; 2]>,
    pub floating: Option<bool>,
    pub monitor: Option<i32>,
    pub workspace: Option<HyprlandWorkspace>,
    pub class_name: Option<String>,
    pub title: Option<String>,
    pub pid: Option<i64>,
    pub xwayland: Option<bool>,
    pub focus_history_id: Option<i32>,
}

impl HyprlandClient {
    /// A client counts as mapped unless it says otherwise.
    pub open spec fn is_mapped(self) -> bool {
        self.mapped != Some(false)
    }

    /// A client counts as visible unless it says otherwise.
    pub open spec fn is_hidden(self) -> bool {
        self.hidden == Some(true)
    }

    /// The workspace a client is on, where it names one.
    pub open spec fn workspace_id(self) -> Option<i32> {
        match self.workspace {
            Some(workspace) => workspace.id,
            None => None,
        }
    }
}

/// The id that a window address writes, where it is one: hexadecimal digits behind `0x`.
pub open spec fn address_id(address: Seq<char>) -> Option<int> {
    let address = trim(address);
    if starts_with(address, "0x"@) {
        parse_unsigned(address.skip(2), 16, u64::MAX as int)
    } else {
        None
    }
}

/// Why a text does not read as a hexadecimal number.
pub uninterp spec fn hex_complaint(digits: Seq<char>) -> Seq<char>;

/// `u64::from_str_radix` in base 16, on a text that is no number of that base: its error in
/// words, of which nothing is said but that it depends on the text alone.
#[verifier::external_body]
fn hex_complaint_of(digits: &str) -> (r: String)
    requires
        parse_unsigned(digits@, 16, u64::MAX as int) is None,
    ensures
        r@ == hex_complaint(digits@),
{
    match u64::from_str_radix(digits, 16) {
        Err(error) => error.to_string(),
        Ok(_) => String::new(),
    }
}

/// What is said of an address that is none.
pub open spec fn address_refusal(address: Seq<char>) -> Seq<char> {
    if starts_with(trim(address), "0x"@) {
        "failed to parse Hyprland window address "@ + address + ": "@ + hex_complaint(
            trim(address).skip(2),
        )
    } else {
        "Hyprland window address did not start with 0x"@
    }
}

/// Reading a window address.
pub fn parse_hyprland_address(address: &str) -> (r: Result<u64, String>)
    ensures
        match r {
            Ok(id) => address_id(address@) == Some(id as int),
            Err(message) => address_id(address@) is None && message@ == address_refusal(address@),
        },
{
    proof {
        reveal_strlit("0x");
    }
    match after_prefix(&trimmed(address), "0x") {
        Some(digits) => match unsigned_of(&digits, 16, u64::MAX) {
            Some(id) => Ok(id),
            None => {
                let mut message = cat("failed to parse Hyprland window address ", address);
                message.append(": ");
                message.append(&hex_complaint_of(&digits));
                Err(message)
            },
        },
        None => Err("Hyprland window address did not start with 0x".to_owned()),
    }
}

/// An address as Hyprland's selectors name it.
pub open spec fn address_text(window_id: u64) -> Seq<char> {
    "address:0x"@ + hex(window_id as int)
}

/// An address as Hyprland's selectors name it.
pub fn window_address(window_id: u64) -> (r: String)
    ensures
        r@ == address_text(window_id),
{
    cat("address:0x", &hex_of(window_id))
}

/// The address a window is told to Hyprland by is the one it is read from: an id written
/// out behind `0x` reads back as itself.
pub proof fn an_address_reads_back(window_id: u64)
    ensures
        address_id("0x"@ + hex(window_id as int)) == Some(window_id as int),
        address_text(window_id) == "address:"@ + ("0x"@ + hex(window_id as int)),
{
    let digits = hex(window_id as int);
    let text = "0x"@ + digits;
    reveal_strlit("0x");
    reveal_strlit("address:");
    reveal_strlit("address:0x");
    crate::numerals::digits_read_back(window_id as int, 16);
    crate::numerals::digits_are_visible(window_id as int, 16);
    assert(text.last() == digits.last());
    crate::text::trim_keeps(text);
    assert(text.subrange(0, 2) =~= "0x"@);
    assert(text.skip(2) =~= digits);
    assert("address:0x"@ =~= "address:"@ + "0x"@);
    assert(address_text(window_id) =~= "address:"@ + text);
}

/// The window a client is, where its address is one.
pub open spec fn is_window_of(window: WindowInfo, client: HyprlandClient) -> bool {
    &&& address_id(client.address@) == Some(window.window_id as int)
    &&& window.title == client.title
    &&& window.app_id == client.class_name
    &&& window.wm_class == client.class_name
    &&& window.pid == match client.pid {
        Some(pid) if 0 <= pid <= u32::MAX => Some(pid as u32),
        _ => None,
    }
    &&& match client.size {
        Some(size) => window.bounds == Some(
            WindowBounds {
                x: match client.at {
                    Some(at) => Some(at[0]),
                    None => None,
                },
                y: match client.at {
                    Some(at) => Some(at[1]),
                    None => None,
                },
                width: size[0],
                height: size[1],
            },
        ),
        None => window.bounds is None,
    }
    &&& window.workspace == client.workspace_id()
    &&& window.focused == (client.focus_history_id == Some(0i32))
    &&& window.hidden == client.is_hidden()
    &&& text_of(window.client_type) == match client.xwayland {
        Some(true) => Some("x11"@),
        Some(false) => Some("wayland"@),
        None => None,
    }
    &&& window.backend@ == HYPRLAND_BACKEND@
    &&& window.terminal is None
}

impl WindowInfo {
    /// The window a client is.
    pub fn try_from(client: &HyprlandClient) -> (r: Result<Self, String>)
        ensures
            match r {
                Ok(window) => is_window_of(window, *client),
                Err(message) => address_id(client.address@) is None && message@ == address_refusal(
                    client.address@,
                ),
            },
    {
        let window_id: u64 = match parse_hyprland_address(&client.address) {
            Ok(id) => id,
            Err(message) => return Err(message),
        };
        let bounds = match client.size {
            Some(size) => Some(
                WindowBounds {
                    x: match client.at {
                        Some(at) => Some(at[0]),
                        None => None,
                    },
                    y: match client.at {
                        Some(at) => Some(at[1]),
                        None => None,
                    },
                    width: size[0],
                    height: size[1],
                },
            ),
            None => None,
        };
        let client_type = match client.xwayland {
            Some(true) => Some("x11".to_owned()),
            Some(false) => Some("wayland".to_owned()),
            None => None,
        };
        Ok(
            WindowInfo {
                window_id,
                title: client.title.clone(),
                app_id: client.class_name.clone(),
                wm_class: client.class_name.clone(),
                pid: match client.pid {
                    Some(pid) => if 0 <= pid && pid <= u32::MAX as i64 {
                        Some(pid as u32)
                    } else {
                        None
                    },
                    None => None,
                },
                bounds,
                workspace: match &client.workspace {
                    Some(workspace) => workspace.id,
                    None => None,
                },
                focused: match client.focus_history_id {
                    Some(id) => id == 0,
                    None => false,
                },
                hidden: match client.hidden {
                    Some(hidden) => hidden,
                    None => false,
                },
                client_type,
                backend: HYPRLAND_BACKEND.to_owned(),
                terminal: None,
            },
        )
    }
}

/// The mapped ones among some clients, in order.
pub open spec fn mapped_clients(clients: Seq<HyprlandClient>) -> Seq<HyprlandClient> {
    clients.filter(|c: HyprlandClient| c.is_mapped())
}

/// Whether windows are those of clients, one for one.
pub open spec fn are_windows_of(windows: Seq<WindowInfo>, clients: Seq<HyprlandClient>) -> bool {
    windows.len() == clients.len() && forall|i: int|
        0 <= i < windows.len() ==> is_window_of(#[trigger] windows[i], clients[i])
}

/// A window put into a list behind the last one whose id is no larger.
pub open spec fn put_by_id(sorted: Seq<WindowInfo>, window: WindowInfo) -> Seq<WindowInfo>
    decreases sorted.len(),
{
    if sorted.len() > 0 && sorted.last().window_id > window.window_id {
        put_by_id(sorted.drop_last(), window).push(sorted.last())
    } else {
        sorted.push(window)
    }
}

/// Windows ordered by id, those of one id in the order they came.
pub open spec fn by_id(windows: Seq<WindowInfo>) -> Seq<WindowInfo>
    decreases windows.len(),
{
    if windows.len() == 0 {
        windows
    } else {
        put_by_id(by_id(windows.drop_last()), windows.last())
    }
}

/// The first refusal among some clients' addresses.
pub open spec fn first_bad_address(clients: Seq<HyprlandClient>) -> Option<Seq<char>>
    decreases clients.len(),
{
    if clients.len() == 0 {
        None
    } else {
        match first_bad_address(clients.drop_last()) {
            Some(message) => Some(message),
            None => if address_id(clients.last().address@) is None {
                Some(address_refusal(clients.last().address@))
            } else {
                None
            },
        }
    }
}

proof fn put_by_id_at(sorted: Seq<WindowInfo>, window: WindowInfo, at: int)
    requires
        0 <= at <= sorted.len(),
        forall|i: int| at <= i < sorted.len() ==> (#[trigger] sorted[i]).window_id > window.window_id,
        at > 0 ==> sorted[at - 1].window_id <= window.window_id,
    ensures
        put_by_id(sorted, window) == sorted.insert(at, window),
    decreases sorted.len(),
{
    if at < sorted.len() {
        put_by_id_at(sorted.drop_last(), window, at);
        assert(sorted.drop_last().insert(at, window).push(sorted.last()) =~= sorted.insert(
            at,
            window,
        ));
    } else {
        assert(sorted.insert(at, window) =~= sorted.push(window));
    }
}

/// Put a window into a list ordered by id.
fn insert_by_id(sorted: &mut Vec<WindowInfo>, window: WindowInfo)
    ensures
        final(sorted)@ == put_by_id(old(sorted)@, window),
{
    let mut at: usize = sorted.len();
    while at > 0 && sorted[at - 1].window_id > window.window_id
        invariant
            at <= sorted@.len(),
            sorted@ == old(sorted)@,
            forall|i: int|
                at <= i < sorted@.len() ==> (#[trigger] sorted@[i]).window_id > window.window_id,
        decreases at,
    {
        at = at - 1;
    }
    proof {
        put_by_id_at(sorted@, window, at as int);
    }
    sorted.insert(at, window);
}

/// Whether windows are others, one for one, with what runs in each.
pub open spec fn are_enriched<F: Fn(&WindowInfo) -> Option<TerminalWindowContext>>(
    windows: Seq<WindowInfo>,
    bare: Seq<WindowInfo>,
    terminal_of: F,
) -> bool {
    windows.len() == bare.len() && forall|i: int|
        0 <= i < windows.len() ==> is_enriched(
            #[trigger] windows[i],
            bare[i],
            windows[i].terminal,
        ) && terminal_of.ensures((&bare[i],), windows[i].terminal)
}

/// The windows of the mapped clients, ordered by id, each with what runs in it where it is a
/// terminal, which `terminal_of` tells.
pub fn windows_from_hyprland_clients<F: Fn(&WindowInfo) -> Option<TerminalWindowContext>>(
    clients: &[HyprlandClient],
    terminal_of: F,
) -> (r: Result<Vec<WindowInfo>, String>)
    requires
        forall|window: &WindowInfo| #[trigger] terminal_of.requires((window,)),
    ensures
        match r {
            Ok(windows) => first_bad_address(mapped_clients(clients@)) is None && exists|unsorted: Seq<WindowInfo>|
                #[trigger] are_windows_of(unsorted, mapped_clients(clients@)) && are_enriched(
                    windows@,
                    by_id(unsorted),
                    terminal_of,
                ),
            Err(message) => first_bad_address(mapped_clients(clients@)) == Some(message@),
        },
{
    let mut windows: Vec<WindowInfo> = Vec::new();
    let ghost mut unsorted: Seq<WindowInfo> = Seq::empty();
    let ghost f = |c: HyprlandClient| c.is_mapped();
    assert(mapped_clients(clients@.take(0)) =~= Seq::empty()) by {
        reveal(Seq::filter);
    }
    for i in 0..clients.len()
        invariant
            f == (|c: HyprlandClient| c.is_mapped()),
            are_windows_of(unsorted, mapped_clients(clients@.take(i as int))),
            windows@ == by_id(unsorted),
            first_bad_address(mapped_clients(clients@.take(i as int))) is None,
            forall|window: &WindowInfo| #[trigger] terminal_of.requires((window,)),
    {
        let ghost part = clients@.take(i + 1);
        let ghost kept = mapped_clients(clients@.take(i as int));
        assert(part.drop_last() =~= clients@.take(i as int));
        assert(mapped_clients(part) == if clients@[i as int].is_mapped() {
            kept.push(clients@[i as int])
        } else {
            kept
        }) by {
            reveal(Seq::filter);
        }
        let is_mapped = match clients[i].mapped {
            Some(mapped) => mapped,
            None => true,
        };
        if is_mapped {
            assert(kept.push(clients@[i as int]).drop_last() =~= kept);
            match WindowInfo::try_from(&clients[i]) {
                Ok(window) => {
                    proof {
                        assert(unsorted.push(window).drop_last() =~= unsorted);
                        unsorted = unsorted.push(window);
                    }
                    insert_by_id(&mut windows, window);
                },
                Err(message) => {
                    proof {
                        first_bad_address_stays(clients@, i + 1);
                    }
                    return Err(message);
                },
            }
        }
    }
    assert(clients@.take(clients@.len() as int) =~= clients@);
    let ghost bare = windows@;
    let mut contexts: Vec<Option<TerminalWindowContext>> = Vec::new();
    for i in 0..windows.len()
        invariant
            windows@ == bare,
            contexts@.len() == i,
            forall|window: &WindowInfo| #[trigger] terminal_of.requires((window,)),
            forall|k: int|
                0 <= k < i ==> terminal_of.ensures((&bare[k],), #[trigger] contexts@[k]),
    {
        contexts.push(terminal_of(&windows[i]));
    }
    let ghost given = contexts@;
    enrich_terminal_windows(&mut windows, contexts);
    assert forall|i: int| 0 <= i < windows@.len() implies is_enriched(
        #[trigger] windows@[i],
        bare[i],
        windows@[i].terminal,
    ) && terminal_of.ensures((&bare[i],), windows@[i].terminal) by {
        assert(is_enriched(windows@[i], bare[i], given[i]));
        assert(windows@[i].terminal == given[i]);
    }
    Ok(windows)
}

/// The first refusal stays the first whatever clients follow.
proof fn first_bad_address_stays(clients: Seq<HyprlandClient>, k: int)
    requires
        0 <= k <= clients.len(),
        first_bad_address(mapped_clients(clients.take(k))) is Some,
    ensures
        first_bad_address(mapped_clients(clients)) == first_bad_address(
            mapped_clients(clients.take(k)),
        ),
    decreases clients.len(),
{
    if k == clients.len() {
        assert(clients.take(k) =~= clients);
    } else {
        let rest = clients.drop_last();
        assert(rest.take(k) =~= clients.take(k));
        first_bad_address_stays(rest, k);
        assert(mapped_clients(clients) == if clients.last().is_mapped() {
            mapped_clients(rest).push(clients.last())
        } else {
            mapped_clients(rest)
        }) by {
            reveal(Seq::filter);
        }
        if clients.last().is_mapped() {
            assert(mapped_clients(rest).push(clients.last()).drop_last() =~= mapped_clients(rest));
        }
    }
}

/// Ordering by id gives an ascending list of the same windows.
pub proof fn by_id_ascends(windows: Seq<WindowInfo>)
    ensures
        forall|i: int, j: int|
            0 <= i < j < by_id(windows).len() ==> #[trigger] by_id(windows)[i].window_id
                <= #[trigger] by_id(windows)[j].window_id,
        by_id(windows).to_multiset() == windows.to_multiset(),
    decreases windows.len(),
{
    if windows.len() > 0 {
        by_id_ascends(windows.drop_last());
        put_keeps_order(by_id(windows.drop_last()), windows.last());
        assert(windows.drop_last().push(windows.last()) =~= windows);
        vstd::seq_lib::to_multiset_build(windows.drop_last(), windows.last());
    }
}

proof fn put_keeps_order(sorted: Seq<WindowInfo>, window: WindowInfo)
    requires
        forall|i: int, j: int|
            0 <= i < j < sorted.len() ==> #[trigger] sorted[i].window_id
                <= #[trigger] sorted[j].window_id,
    ensures
        forall|i: int, j: int|
            0 <= i < j < put_by_id(sorted, window).len() ==> #[trigger] put_by_id(
                sorted,
                window,
            )[i].window_id <= #[trigger] put_by_id(sorted, window)[j].window_id,
        forall|i: int|
            0 <= i < put_by_id(sorted, window).len() ==> (#[trigger] put_by_id(
                sorted,
                window,
            )[i].window_id <= window.window_id || exists|k: int|
                0 <= k < sorted.len() && #[trigger] sorted[k].window_id == put_by_id(
                    sorted,
                    window,
                )[i].window_id),
        put_by_id(sorted, window).to_multiset() == sorted.to_multiset().insert(window),
    decreases sorted.len(),
{
    let put = put_by_id(sorted, window);
    if sorted.len() > 0 && sorted.last().window_id > window.window_id {
        let rest = sorted.drop_last();
        put_keeps_order(rest, window);
        let inner = put_by_id(rest, window);
        assert(put == inner.push(sorted.last()));
        assert forall|i: int, j: int| 0 <= i < j < put.len() implies #[trigger] put[i].window_id
            <= #[trigger] put[j].window_id by {
            if j < inner.len() {
                assert(inner[i].window_id <= inner[j].window_id);
            } else {
                assert(put[i] == inner[i]);
                if inner[i].window_id > window.window_id {
                    let k = choose|k: int|
                        0 <= k < rest.len() && #[trigger] rest[k].window_id == inner[i].window_id;
                    assert(sorted[k].window_id <= sorted[sorted.len() - 1].window_id);
                }
            }
        }
        assert forall|i: int| 0 <= i < put.len() implies (#[trigger] put[i].window_id
            <= window.window_id || exists|k: int|
            0 <= k < sorted.len() && #[trigger] sorted[k].window_id == put[i].window_id) by {
            if i < inner.len() {
                assert(put[i] == inner[i]);
                if inner[i].window_id > window.window_id {
                    let k = choose|k: int|
                        0 <= k < rest.len() && #[trigger] rest[k].window_id == inner[i].window_id;
                    assert(sorted[k].window_id == put[i].window_id);
                }
            } else {
                assert(sorted[sorted.len() - 1].window_id == put[i].window_id);
            }
        }
        vstd::seq_lib::to_multiset_build(inner, sorted.last());
        vstd::seq_lib::to_multiset_build(rest, sorted.last());
        assert(rest.push(sorted.last()) =~= sorted);
        assert(put.to_multiset() =~= sorted.to_multiset().insert(window));
    } else {
        vstd::seq_lib::to_multiset_build(sorted, window);
        assert forall|i: int| 0 <= i < put.len() implies (#[trigger] put[i].window_id
            <= window.window_id || exists|k: int|
            0 <= k < sorted.len() && #[trigger] sorted[k].window_id == put[i].window_id) by {
            if i < sorted.len() {
                assert(sorted[i].window_id == put[i].window_id);
            }
        }
    }
}

/// A client without the bounds it gave.
pub open spec fn without_bounds(client: HyprlandClient) -> HyprlandClient {
    HyprlandClient { at: None, size: None, ..client }
}

/// Take the bounds of every client away.
pub fn clear_hyprland_client_bounds(clients: &mut Vec<HyprlandClient>)
    ensures
        final(clients)@ == old(clients)@.map_values(|c: HyprlandClient| without_bounds(c)),
{
    let count: usize = clients.len();
    for i in 0..count
        invariant
            clients@.len() == old(clients)@.len() == count,
            forall|k: int|
                0 <= k < i ==> #[trigger] clients@[k] == without_bounds(old(clients)@[k]),
            forall|k: int| i <= k < count ==> #[trigger] clients@[k] == old(clients)@[k],
    {
        clients[i].at = None;
        clients[i].size = None;
    }
    assert(clients@ =~= old(clients)@.map_values(|c: HyprlandClient| without_bounds(c)));
}

/// A client with its bounds moved to screenshot space: it keeps bounds only where it is on
/// a known monitor and its bounds have a place there.
pub open spec fn rebased(
    client: HyprlandClient,
    monitor_ids: Seq<i32>,
    mapped: Option<([i32; 2], [u32; 2])>,
) -> HyprlandClient {
    match mapped {
        Some((at, size)) if client.monitor is Some && monitor_ids.contains(client.monitor->0)
            && client.at is Some && client.size is Some => HyprlandClient {
            at: Some(at),
            size: Some(size),
            ..client
        },
        _ => without_bounds(client),
    }
}

fn has_id(ids: &[i32], id: i32) -> (r: bool)
    ensures
        r == ids@.contains(id),
{
    for i in 0..ids.len()
        invariant
            forall|j: int| 0 <= j < i ==> ids@[j] != id,
    {
        if ids[i] == id {
            assert(ids@[i as int] == id);
            return true;
        }
    }
    false
}

/// Move the bounds of every client to screenshot space, given where each would be there.
pub fn rebase_clients(
    clients: &mut Vec<HyprlandClient>,
    monitor_ids: &[i32],
    mapped: &[Option<([i32; 2], [u32; 2])>],
)
    requires
        mapped@.len() == old(clients)@.len(),
    ensures
        final(clients)@ == Seq::new(
            old(clients)@.len(),
            |i: int| rebased(old(clients)@[i], monitor_ids@, mapped@[i]),
        ),
{
    let count: usize = clients.len();
    for i in 0..count
        invariant
            clients@.len() == old(clients)@.len() == count == mapped@.len(),
            forall|k: int|
                0 <= k < i ==> #[trigger] clients@[k] == rebased(
                    old(clients)@[k],
                    monitor_ids@,
                    mapped@[k],
                ),
            forall|k: int| i <= k < count ==> #[trigger] clients@[k] == old(clients)@[k],
    {
        let known = match clients[i].monitor {
            Some(monitor) => has_id(monitor_ids, monitor),
            None => false,
        };
        let has_bounds = clients[i].at.is_some() && clients[i].size.is_some();
        let place = if known && has_bounds {
            mapped[i]
        } else {
            None
        };
        match place {
            Some((at, size)) => {
                clients[i].at = Some(at);
                clients[i].size = Some(size);
            },
            None => {
                clients[i].at = None;
                clients[i].size = None;
            },
        }
    }
    assert(clients@ =~= Seq::new(
        old(clients)@.len(),
        |i: int| rebased(old(clients)@[i], monitor_ids@, mapped@[i]),
    ));
}

/// The least of some numbers.
pub open spec fn is_least(least: int, all: Seq<i32>) -> bool {
    &&& exists|i: int| 0 <= i < all.len() && #[trigger] all[i] == least
    &&& forall|i: int| 0 <= i < all.len() ==> least <= #[trigger] all[i]
}

/// The corner of the capture: the least coordinate of any monitor on each axis.
pub fn capture_origin(xs: &[i32], ys: &[i32]) -> (r: Option<(i32, i32)>)
    requires
        xs@.len() == ys@.len(),
    ensures
        match r {
            Some((x, y)) => is_least(x as int, xs@) && is_least(y as int, ys@),
            None => xs@.len() == 0,
        },
{
    if xs.len() == 0 {
        return None;
    }
    Some((least_of(xs), least_of(ys)))
}

fn least_of(all: &[i32]) -> (r: i32)
    requires
        all@.len() > 0,
    ensures
        is_least(r as int, all@),
{
    let mut least: i32 = all[0];
    for i in 0..all.len()
        invariant
            all@.len() > 0,
            exists|k: int| 0 <= k < all@.len() && #[trigger] all@[k] == least,
            forall|k: int| 0 <= k < i ==> least <= #[trigger] all@[k],
    {
        if all[i] < least {
            least = all[i];
            assert(all@[i as int] == least);
        }
    }
    least
}

/// The bounds between four edges in screenshot space, where they enclose anything and
/// fit: the corner in an `i32` on each axis, the extent in a `u32`.
pub open spec fn enclosed(left: int, top: int, right: int, bottom: int) -> bool {
    &&& i32::MIN <= left <= i32::MAX
    &&& i32::MIN <= top <= i32::MAX
    &&& left < right
    &&& top < bottom
    &&& right - left <= u32::MAX
    &&& bottom - top <= u32::MAX
}

/// The bounds between the edges a client's bounds came to in screenshot space. A client
/// without extent has none.
pub fn bounds_from_edges(
    size: [u32; 2],
    left: i64,
    top: i64,
    right: i64,
    bottom: i64,
) -> (r: Option<([i32; 2], [u32; 2])>)
    ensures
        match r {
            Some((at, extent)) => {
                &&& size[0] > 0 && size[1] > 0
                &&& enclosed(left as int, top as int, right as int, bottom as int)
                &&& at[0] == left && at[1] == top
                &&& extent[0] == right - left && extent[1] == bottom - top
            },
            None => size[0] == 0 || size[1] == 0 || !enclosed(
                left as int,
                top as int,
                right as int,
                bottom as int,
            ),
        },
{
    if size[0] == 0 || size[1] == 0 {
        return None;
    }
    if left < i32::MIN as i64 || left > i32::MAX as i64 || top < i32::MIN as i64 || top
        > i32::MAX as i64 || right <= left || bottom <= top {
        return None;
    }
    if right > left + u32::MAX as i64 || bottom > top + u32::MAX as i64 {
        return None;
    }
    Some(([left as i32, top as i32], [(right - left) as u32, (bottom - top) as u32]))
}

/// A number brought into the range of an `i32`.
pub open spec fn clamped(n: int) -> int {
    if n < i32::MIN {
        i32::MIN as int
    } else if n > i32::MAX {
        i32::MAX as int
    } else {
        n
    }
}

/// A scaled coordinate brought into range, behind an origin where there is one.
pub fn place_on_axis(scaled: i64, origin: i32) -> (r: i32)
    ensures
        r == clamped(clamped(scaled as int) + origin),
{
    let near: i64 = if scaled < i32::MIN as i64 {
        i32::MIN as i64
    } else if scaled > i32::MAX as i64 {
        i32::MAX as i64
    } else {
        scaled
    };
    let at: i64 = near + origin as i64;
    if at < i32::MIN as i64 {
        i32::MIN
    } else if at > i32::MAX as i64 {
        i32::MAX
    } else {
        at as i32
    }
}

/// The point a cursor report names: two numbers and a comma, with whitespace anywhere
/// around them.
pub open spec fn cursor_point(text: Seq<char>) -> Option<(int, int)> {
    let parts = split(trim(text), seq![',']);
    if parts.len() != 2 {
        None
    } else {
        match (
            parse_signed(trim(parts[0]), i32::MIN as int, i32::MAX as int),
            parse_signed(trim(parts[1]), i32::MIN as int, i32::MAX as int),
        ) {
            (Some(x), Some(y)) => Some((x, y)),
            _ => None,
        }
    }
}

/// `hyprctl cursorpos` prints `<x>, <y>` in global layout coordinates.
pub fn parse_cursorpos(text: &str) -> (r: Option<(i32, i32)>)
    ensures
        match r {
            Some((x, y)) => cursor_point(text@) == Some((x as int, y as int)),
            None => cursor_point(text@) is None,
        },
{
    let seps: [char; 1] = [','];
    assert(seps@ =~= seq![',']);
    let parts = split_at_any(&trimmed(text), &seps);
    if parts.len() != 2 {
        return None;
    }
    assert(texts(parts@)[0] == parts@[0]@ && texts(parts@)[1] == parts@[1]@);
    match (
        signed_of(&trimmed(&parts[0]), i32::MIN as i64, i32::MAX as i64),
        signed_of(&trimmed(&parts[1]), i32::MIN as i64, i32::MAX as i64),
    ) {
        (Some(x), Some(y)) => Some((x as i32, y as i32)),
        _ => None,
    }
}

/// The point a run of `hyprctl cursorpos` tells of, or why it tells of none.
pub open spec fn cursor_read(output: CommandOutput) -> Result<(int, int), Seq<char>> {
    if !output.success {
        Err("hyprctl cursorpos failed: "@ + crate::command::detail(output))
    } else {
        match cursor_point(lossy_text(output.stdout@)) {
            Some(point) => Ok(point),
            None => Err("unexpected hyprctl cursorpos output "@ + debug_text(output.out())),
        }
    }
}

/// The point a run of `hyprctl cursorpos` tells of, in global layout coordinates.
pub fn cursor_position(output: &CommandOutput) -> (r: Result<(i32, i32), String>)
    ensures
        match r {
            Ok((x, y)) => cursor_read(*output) == Ok::<(int, int), Seq<char>>(
                (x as int, y as int),
            ),
            Err(message) => cursor_read(*output) == Err::<(int, int), Seq<char>>(message@),
        },
{
    if !output.success {
        return Err(cat("hyprctl cursorpos failed: ", &crate::command::command_detail(output)));
    }
    match parse_cursorpos(&lossy(&output.stdout)) {
        Some(point) => Ok(point),
        None => Err(cat("unexpected hyprctl cursorpos output ", &debug_of(&output.stdout_text()))),
    }
}

/// Whether two rectangles share a pixel.
pub open spec fn share_pixel(
    at_a: [i32; 2],
    size_a: [u32; 2],
    at_b: [i32; 2],
    size_b: [u32; 2],
) -> bool {
    &&& at_a[0] < at_b[0] + size_b[0]
    &&& at_b[0] < at_a[0] + size_a[0]
    &&& at_a[1] < at_b[1] + size_b[1]
    &&& at_b[1] < at_a[1] + size_a[1]
}

/// Whether two rectangles share a pixel.
pub fn rects_intersect(at_a: [i32; 2], size_a: [u32; 2], at_b: [i32; 2], size_b: [u32; 2]) -> (r:
    bool)
    ensures
        r == share_pixel(at_a, size_a, at_b, size_b),
{
    let right_a: i64 = at_a[0] as i64 + size_a[0] as i64;
    let bottom_a: i64 = at_a[1] as i64 + size_a[1] as i64;
    let right_b: i64 = at_b[0] as i64 + size_b[0] as i64;
    let bottom_b: i64 = at_b[1] as i64 + size_b[1] as i64;
    (at_a[0] as i64) < right_b && (at_b[0] as i64) < right_a && (at_a[1] as i64) < bottom_b && (
    at_b[1] as i64) < bottom_a
}

/// Two rectangles of some extent share a pixel exactly when a point is inside both.
pub proof fn sharing_is_a_common_pixel(
    at_a: [i32; 2],
    size_a: [u32; 2],
    at_b: [i32; 2],
    size_b: [u32; 2],
)
    requires
        size_a[0] > 0 && size_a[1] > 0 && size_b[0] > 0 && size_b[1] > 0,
    ensures
        share_pixel(at_a, size_a, at_b, size_b) <==> exists|x: int, y: int|
            #[trigger] in_rect(x, y, at_a, size_a) && in_rect(x, y, at_b, size_b),
{
    if share_pixel(at_a, size_a, at_b, size_b) {
        let x = if at_a[0] < at_b[0] {
            at_b[0] as int
        } else {
            at_a[0] as int
        };
        let y = if at_a[1] < at_b[1] {
            at_b[1] as int
        } else {
            at_a[1] as int
        };
        assert(in_rect(x, y, at_a, size_a) && in_rect(x, y, at_b, size_b));
    }
}

/// Whether a pixel is inside a rectangle.
pub open spec fn in_rect(x: int, y: int, at: [i32; 2], size: [u32; 2]) -> bool {
    at[0] <= x < at[0] + size[0] && at[1] <= y < at[1] + size[1]
}

/// The position of the first client of an id.
pub open spec fn client_of(clients: Seq<HyprlandClient>, window_id: u64) -> Option<int>
    decreases clients.len(),
{
    if clients.len() == 0 {
        None
    } else {
        match client_of(clients.drop_last(), window_id) {
            Some(k) => Some(k),
            None => if address_id(clients.last().address@) == Some(window_id as int) {
                Some(clients.len() - 1)
            } else {
                None
            },
        }
    }
}

/// The position of the first client of an id.
pub fn find_client(clients: &[HyprlandClient], window_id: u64) -> (r: Option<usize>)
    ensures
        match r {
            Some(k) => client_of(clients@, window_id) == Some(k as int) && k < clients@.len(),
            None => client_of(clients@, window_id) is None,
        },
{
    let mut found: Option<usize> = None;
    for i in 0..clients.len()
        invariant
            match found {
                Some(k) => k < i && client_of(clients@.take(i as int), window_id) == Some(k as int),
                None => client_of(clients@.take(i as int), window_id) is None,
            },
    {
        assert(clients@.take(i + 1).drop_last() =~= clients@.take(i as int));
        if found.is_none() {
            match parse_hyprland_address(&clients[i].address) {
                Ok(id) => if id == window_id {
                    found = Some(i);
                },
                Err(_) => {},
            }
        }
    }
    assert(clients@.take(clients@.len() as int) =~= clients@);
    found
}

/// Whether a client is above another: visible, on the same workspace, focused more
/// recently, and sharing a pixel with it.
pub open spec fn is_above(client: HyprlandClient, below: HyprlandClient) -> bool {
    &&& client.is_mapped() && !client.is_hidden()
    &&& client.address@ != below.address@
    &&& client.workspace_id() == below.workspace_id()
    &&& match (client.focus_history_id, below.focus_history_id) {
        (Some(c), Some(b)) => c < b,
        (Some(_), None) => true,
        (None, _) => false,
    }
    &&& client.at is Some && client.size is Some && below.at is Some && below.size is Some
    &&& share_pixel(client.at->0, client.size->0, below.at->0, below.size->0)
}

/// The windows of the clients that are above another one, in order.
pub open spec fn occluders(clients: Seq<HyprlandClient>, below: HyprlandClient) -> Seq<
    WindowOcclusion,
>
    decreases clients.len(),
{
    if clients.len() == 0 {
        Seq::empty()
    } else {
        let before = occluders(clients.drop_last(), below);
        let client = clients.last();
        match address_id(client.address@) {
            Some(id) if is_above(client, below) => before.push(
                WindowOcclusion { window_id: id as u64, title: client.title },
            ),
            _ => before,
        }
    }
}

fn client_workspace(client: &HyprlandClient) -> (r: Option<i32>)
    ensures
        r == client.workspace_id(),
{
    match &client.workspace {
        Some(workspace) => workspace.id,
        None => None,
    }
}

fn above(client: &HyprlandClient, below: &HyprlandClient) -> (r: bool)
    ensures
        r == is_above(*client, *below),
{
    let mapped = match client.mapped {
        Some(mapped) => mapped,
        None => true,
    };
    let hidden = match client.hidden {
        Some(hidden) => hidden,
        None => false,
    };
    if !mapped || hidden || same(&client.address, &below.address) {
        return false;
    }
    let same_workspace = match (client_workspace(client), client_workspace(below)) {
        (Some(a), Some(b)) => a == b,
        (None, None) => true,
        _ => false,
    };
    if !same_workspace {
        return false;
    }
    let more_recent = match (client.focus_history_id, below.focus_history_id) {
        (Some(c), Some(b)) => c < b,
        (Some(_), None) => true,
        (None, _) => false,
    };
    if !more_recent {
        return false;
    }
    match (client.at, client.size, below.at, below.size) {
        (Some(at), Some(size), Some(below_at), Some(below_size)) => rects_intersect(
            at,
            size,
            below_at,
            below_size,
        ),
        _ => false,
    }
}

/// Windows that overlap `window_id` and sit above it.
///
/// `hyprctl clients -j` carries no stacking order, so `focusHistoryID` stands
/// in for it: Hyprland raises a floating window when it is focused, so a more
/// recently focused overlapping window on the same workspace is above the
/// target. Tiled windows never overlap each other, so the approximation only
/// misses a floating window raised without focus.
pub fn occluders_from_clients(clients: &[HyprlandClient], window_id: u64) -> (r: Vec<
    WindowOcclusion,
>)
    ensures
        r@ == match client_of(clients@, window_id) {
            Some(k) => occluders(clients@, clients@[k]),
            None => Seq::empty(),
        },
{
    let mut found: Vec<WindowOcclusion> = Vec::new();
    let k: usize = match find_client(clients, window_id) {
        Some(k) => k,
        None => return found,
    };
    for i in 0..clients.len()
        invariant
            k < clients@.len(),
            found@ == occluders(clients@.take(i as int), clients@[k as int]),
    {
        assert(clients@.take(i + 1).drop_last() =~= clients@.take(i as int));
        if above(&clients[i], &clients[k]) {
            match parse_hyprland_address(&clients[i].address) {
                Ok(id) => found.push(
                    WindowOcclusion { window_id: id, title: clients[i].title.clone() },
                ),
                Err(_) => {},
            }
        }
    }
    assert(clients@.take(clients@.len() as int) =~= clients@);
    found
}

/// The dispatch that focuses what an address names.
pub open spec fn focus_lua(address: Seq<char>) -> Seq<char> {
    "hl.dsp.focus({ window = \""@ + address + "\" })"@
}

/// The dispatch that focuses what an address names.
pub fn lua_focus_dispatch(address: &str) -> (r: String)
    ensures
        r@ == focus_lua(address@),
{
    let mut lua = cat("hl.dsp.focus({ window = \"", address);
    lua.append("\" })");
    lua
}

/// The dispatch that moves the view to a workspace.
pub open spec fn workspace_lua(target: WorkspaceTarget) -> Seq<char> {
    "hl.dsp.focus({ workspace = "@ + target.lua_text() + " })"@
}

/// The dispatch that moves the view to a workspace.
pub fn lua_workspace_focus_dispatch(target: WorkspaceTarget) -> (r: String)
    ensures
        r@ == workspace_lua(target),
{
    let mut lua = cat("hl.dsp.focus({ workspace = ", &target.lua_value());
    lua.append(" })");
    lua
}

/// The dispatch that moves a window to a workspace, and the view with it where it follows.
pub open spec fn window_workspace_lua(
    window_id: u64,
    target: WorkspaceTarget,
    follow: bool,
) -> Seq<char> {
    "hl.dsp.window.move({ window = \""@ + address_text(window_id) + "\", workspace = "@
        + target.lua_text() + ", follow = "@ + (if follow {
        "true"@
    } else {
        "false"@
    }) + " })"@
}

/// The dispatch that moves a window to a workspace, and the view with it where it follows.
pub fn lua_window_workspace_dispatch(window_id: u64, target: WorkspaceTarget, follow: bool) -> (r:
    String)
    ensures
        r@ == window_workspace_lua(window_id, target, follow),
{
    let mut lua = cat("hl.dsp.window.move({ window = \"", &window_address(window_id));
    lua.append("\", workspace = ");
    lua.append(&target.lua_value());
    lua.append(", follow = ");
    if follow {
        lua.append("true");
    } else {
        lua.append("false");
    }
    lua.append(" })");
    lua
}

/// A geometry dispatch: the window by address, and two exact numbers.
pub open spec fn geometry_lua(opening: Seq<char>, window_id: u64, pair: [i32; 2]) -> Seq<char> {
    opening + address_text(window_id) + "\", exact = true, x = "@ + decimal(pair[0] as int)
        + ", y = "@ + decimal(pair[1] as int) + " })"@
}

/// What a move dispatch opens with.
pub const MOVE_OPENING: &'static str = "hl.dsp.window.move({ window = \"";

/// What a resize dispatch opens with.
pub const RESIZE_OPENING: &'static str = "hl.dsp.window.resize({ window = \"";

fn geometry_dispatch(opening: &str, window_id: u64, pair: [i32; 2]) -> (r: String)
    ensures
        r@ == geometry_lua(opening@, window_id, pair),
{
    let mut lua = cat(opening, &window_address(window_id));
    lua.append("\", exact = true, x = ");
    lua.append(&signed_decimal_of(pair[0] as i64));
    lua.append(", y = ");
    lua.append(&signed_decimal_of(pair[1] as i64));
    lua.append(" })");
    lua
}

/// Hyprland 0.55+ wraps every `hyprctl dispatch` argument as
/// `return hl.dispatch(<arg>)`, so the string dispatchers that came before it
/// are rejected as Lua ("')' expected near 'exact'") and the table form is the
/// only one that works -- over the raw IPC socket too, not just the CLI.
/// Coordinates are Hyprland's global layout coordinates, the ones
/// `hyprctl clients -j` reports in `at`.
pub fn lua_move_dispatch(window_id: u64, at: [i32; 2]) -> (r: String)
    ensures
        r@ == geometry_lua(MOVE_OPENING@, window_id, at),
{
    geometry_dispatch(MOVE_OPENING, window_id, at)
}

/// The Lua resize form: `x`/`y` carry the width and height.
pub fn lua_resize_dispatch(window_id: u64, size: [i32; 2]) -> (r: String)
    ensures
        r@ == geometry_lua(RESIZE_OPENING@, window_id, size),
{
    geometry_dispatch(RESIZE_OPENING, window_id, size)
}

/// The dispatch that floats or tiles a window.
pub open spec fn float_lua(window_id: u64, floating: bool) -> Seq<char> {
    "hl.dsp.window.float({ window = \""@ + address_text(window_id) + "\", action = \""@ + (
    if floating {
        "set"@
    } else {
        "unset"@
    }) + "\" })"@
}

/// The Lua float form. The window is named explicitly: `hl.dsp.window.float()`
/// without arguments acts on the focused window instead.
pub fn lua_float_dispatch(window_id: u64, floating: bool) -> (r: String)
    ensures
        r@ == float_lua(window_id, floating),
{
    let mut lua = cat("hl.dsp.window.float({ window = \"", &window_address(window_id));
    lua.append("\", action = \"");
    if floating {
        lua.append("set");
    } else {
        lua.append("unset");
    }
    lua.append("\" })");
    lua
}

/// The floating state in words.
pub open spec fn floating_words(floating: bool) -> Seq<char> {
    if floating {
        "floating"@
    } else {
        "tiled"@
    }
}

/// The floating state in words.
pub fn describe_floating(floating: bool) -> (r: &'static str)
    ensures
        r@ == floating_words(floating),
{
    if floating {
        "floating"
    } else {
        "tiled"
    }
}

/// A pair of numbers in words.
pub open spec fn pair_words(pair: Option<(i64, i64)>) -> Seq<char> {
    match pair {
        Some((a, b)) => "("@ + decimal(a as int) + ", "@ + decimal(b as int) + ")"@,
        None => "unknown"@,
    }
}

/// A pair of numbers in words.
pub fn describe_pair(pair: Option<(i64, i64)>) -> (r: String)
    ensures
        r@ == pair_words(pair),
{
    match pair {
        Some((a, b)) => {
            let mut words = cat("(", &signed_decimal_of(a));
            words.append(", ");
            words.append(&signed_decimal_of(b));
            words.append(")");
            words
        },
        None => "unknown".to_owned(),
    }
}

/// Why a tiled window is left alone.
pub open spec fn tiled_refusal(window_id: u64, operation: Seq<char>) -> Seq<char> {
    "Window 0x"@ + hex(window_id as int) + " is tiled, so Hyprland cannot "@ + operation
        + " it to an exact geometry: a pixel move is ignored, and a pixel resize moves the layout split, resizing neighboring windows instead. Nothing was dispatched and the layout is unchanged. Call set_window_floating with floating=true, retry, then set_window_floating with floating=false to tile it again."@
}

/// Hyprland cannot give a tiled window an exact geometry: it drops a pixel
/// move outright, and turns a pixel resize into a layout-split adjustment,
/// which resizes the *neighboring* windows instead of honoring the request.
/// So both are refused here, before any dispatch runs, and a refusal leaves
/// the layout untouched. The floating state is deliberately left alone: the
/// caller decides whether to float the window, so the refusal names the tool
/// that does it.
pub fn refuse_if_tiled(window_id: u64, client: &HyprlandClient, operation: &str) -> (r: Result<
    (),
    String,
>)
    ensures
        match r {
            Ok(_) => client.floating != Some(false),
            Err(message) => client.floating == Some(false) && message@ == tiled_refusal(
                window_id,
                operation@,
            ),
        },
{
    match client.floating {
        Some(false) => {
            let mut message = cat("Window 0x", &hex_of(window_id));
            message.append(" is tiled, so Hyprland cannot ");
            message.append(operation);
            message.append(
                " it to an exact geometry: a pixel move is ignored, and a pixel resize moves the layout split, resizing neighboring windows instead. Nothing was dispatched and the layout is unchanged. Call set_window_floating with floating=true, retry, then set_window_floating with floating=false to tile it again.",
            );
            Err(message)
        },
        _ => Ok(()),
    }
}

/// A change to one window that Hyprland is asked for and then watched for.
#[derive(Debug, Clone, Copy)]
pub enum GeometryRequest {
    /// Move to a point of the desktop, which `target` is in layout coordinates.
    Move { x: i32, y: i32, target: [i32; 2] },
    /// Resize to an extent in desktop pixels, which `target` is in layout units.
    Resize { width: i32, height: i32, target: [i32; 2] },
    /// Float or tile.
    Float { floating: bool },
}

/// What to do with a requested change, knowing the client before it.
#[derive(Debug)]
pub enum GeometryStart {
    /// Dispatch this, then watch for the change.
    Dispatch(String),
    /// Nothing is to be done.
    AlreadySo(String),
    /// The change is refused, and nothing is dispatched.
    Refused(String),
}

/// What to do after one look at the client.
#[derive(Debug)]
pub enum GeometryStep {
    /// Pause and look again.
    LookAgain,
    /// The change is over, for better or worse.
    Over(Result<String, String>),
}

/// A layout extent as a size: no less than one.
pub open spec fn size_wanted(target: i32) -> int {
    if target < 1 {
        1
    } else {
        target as int
    }
}

impl GeometryRequest {
    /// Whether a client shows the requested change.
    pub open spec fn is_met(self, client: HyprlandClient) -> bool {
        match self {
            GeometryRequest::Move { x, y, target } => client.at is Some && client.at->0[0]
                == target[0] && client.at->0[1] == target[1],
            GeometryRequest::Resize { width, height, target } => client.size is Some
                && client.size->0[0] == size_wanted(target[0]) && client.size->0[1] == size_wanted(
                target[1],
            ),
            GeometryRequest::Float { floating } => client.floating == Some(floating),
        }
    }

    /// The dispatch that asks for the change.
    pub open spec fn lua(self, window_id: u64) -> Seq<char> {
        match self {
            GeometryRequest::Move { x, y, target } => geometry_lua(MOVE_OPENING@, window_id, target),
            GeometryRequest::Resize { width, height, target } => geometry_lua(
                RESIZE_OPENING@,
                window_id,
                target,
            ),
            GeometryRequest::Float { floating } => float_lua(window_id, floating),
        }
    }

    /// What is said once the change shows, or was looked for in vain.
    pub open spec fn report(self, window_id: u64, client: HyprlandClient) -> Result<
        Seq<char>,
        Seq<char>,
    > {
        match self {
            GeometryRequest::Move { x, y, target } => {
                let point = "("@ + decimal(x as int) + ", "@ + decimal(y as int) + ")"@;
                Ok(
                    if self.is_met(client) {
                        "Moved window to "@ + point + "."@
                    } else {
                        "Requested move to "@ + point + "; Hyprland reported global position "@
                            + pair_words(
                            match client.at {
                                Some(at) => Some((at[0] as i64, at[1] as i64)),
                                None => None,
                            },
                        ) + "."@
                    },
                )
            },
            GeometryRequest::Resize { width, height, target } => {
                let extent = decimal(width as int) + "x"@ + decimal(height as int);
                Ok(
                    if self.is_met(client) {
                        "Resized window to "@ + extent + "."@
                    } else {
                        "Requested resize to "@ + extent + "; Hyprland reported global size "@
                            + pair_words(
                            match client.size {
                                Some(size) => Some((size[0] as i64, size[1] as i64)),
                                None => None,
                            },
                        ) + "."@
                    },
                )
            },
            GeometryRequest::Float { floating } => if self.is_met(client) {
                Ok(
                    "Window 0x"@ + hex(window_id as int) + " is now "@ + floating_words(floating)
                        + "."@,
                )
            } else {
                Err(
                    "Requested "@ + floating_words(floating) + " for window 0x"@ + hex(
                        window_id as int,
                    ) + ", but Hyprland still reports it "@ + floating_words(!floating) + "."@,
                )
            },
        }
    }

    /// Whether a client shows the requested change.
    pub fn met(&self, client: &HyprlandClient) -> (r: bool)
        ensures
            r == self.is_met(*client),
    {
        match *self {
            GeometryRequest::Move { x, y, target } => match client.at {
                Some(at) => at[0] == target[0] && at[1] == target[1],
                None => false,
            },
            GeometryRequest::Resize { width, height, target } => match client.size {
                Some(size) => {
                    let wide: u32 = if target[0] < 1 {
                        1
                    } else {
                        target[0] as u32
                    };
                    let high: u32 = if target[1] < 1 {
                        1
                    } else {
                        target[1] as u32
                    };
                    size[0] == wide && size[1] == high
                },
                None => false,
            },
            GeometryRequest::Float { floating } => match client.floating {
                Some(state) => state == floating,
                None => false,
            },
        }
    }

    /// How a requested change starts: a tiled window is neither moved nor resized, and a
    /// window already in the wanted floating state is left as it is.
    pub fn start(&self, window_id: u64, client: &HyprlandClient) -> (r: GeometryStart)
        ensures
            match r {
                GeometryStart::Dispatch(lua) => {
                    &&& lua@ == self.lua(window_id)
                    &&& if self is Float {
                        !self.is_met(*client)
                    } else {
                        client.floating != Some(false)
                    }
                },
                GeometryStart::AlreadySo(message) => {
                    &&& self is Float
                    &&& self.is_met(*client)
                    &&& message@ == "Window 0x"@ + hex(window_id as int) + " is already "@
                        + floating_words(self->floating) + "."@
                },
                GeometryStart::Refused(message) => {
                    &&& !(self is Float)
                    &&& client.floating == Some(false)
                    &&& message@ == tiled_refusal(
                        window_id,
                        if self is Move {
                            "move"@
                        } else {
                            "resize"@
                        },
                    )
                },
            },
    {
        match *self {
            GeometryRequest::Move { x, y, target } => match refuse_if_tiled(
                window_id,
                client,
                "move",
            ) {
                Ok(_) => GeometryStart::Dispatch(lua_move_dispatch(window_id, target)),
                Err(message) => GeometryStart::Refused(message),
            },
            GeometryRequest::Resize { width, height, target } => match refuse_if_tiled(
                window_id,
                client,
                "resize",
            ) {
                Ok(_) => GeometryStart::Dispatch(lua_resize_dispatch(window_id, target)),
                Err(message) => GeometryStart::Refused(message),
            },
            GeometryRequest::Float { floating } => if self.met(client) {
                let mut message = cat("Window 0x", &hex_of(window_id));
                message.append(" is already ");
                message.append(describe_floating(floating));
                message.append(".");
                GeometryStart::AlreadySo(message)
            } else {
                GeometryStart::Dispatch(lua_float_dispatch(window_id, floating))
            },
        }
    }

    /// What is said once the change shows, or was looked for in vain.
    pub fn outcome(&self, window_id: u64, client: &HyprlandClient) -> (r: Result<String, String>)
        ensures
            match r {
                Ok(message) => self.report(window_id, *client) == Ok::<Seq<char>, Seq<char>>(
                    message@,
                ),
                Err(message) => self.report(window_id, *client) == Err::<Seq<char>, Seq<char>>(
                    message@,
                ),
            },
    {
        let met = self.met(client);
        match *self {
            GeometryRequest::Move { x, y, target } => {
                let mut point = cat("(", &signed_decimal_of(x as i64));
                point.append(", ");
                point.append(&signed_decimal_of(y as i64));
                point.append(")");
                if met {
                    let mut message = cat("Moved window to ", &point);
                    message.append(".");
                    return Ok(message);
                }
                let mut message = cat("Requested move to ", &point);
                message.append("; Hyprland reported global position ");
                message.append(
                    &describe_pair(
                        match client.at {
                            Some(at) => Some((at[0] as i64, at[1] as i64)),
                            None => None,
                        },
                    ),
                );
                message.append(".");
                Ok(message)
            },
            GeometryRequest::Resize { width, height, target } => {
                let mut extent = cat(&signed_decimal_of(width as i64), "x");
                extent.append(&signed_decimal_of(height as i64));
                if met {
                    let mut message = cat("Resized window to ", &extent);
                    message.append(".");
                    return Ok(message);
                }
                let mut message = cat("Requested resize to ", &extent);
                message.append("; Hyprland reported global size ");
                message.append(
                    &describe_pair(
                        match client.size {
                            Some(size) => Some((size[0] as i64, size[1] as i64)),
                            None => None,
                        },
                    ),
                );
                message.append(".");
                Ok(message)
            },
            GeometryRequest::Float { floating } => {
                if met {
                    let mut message = cat("Window 0x", &hex_of(window_id));
                    message.append(" is now ");
                    message.append(describe_floating(floating));
                    message.append(".");
                    return Ok(message);
                }
                let mut message = cat("Requested ", describe_floating(floating));
                message.append(" for window 0x");
                message.append(&hex_of(window_id));
                message.append(", but Hyprland still reports it ");
                message.append(describe_floating(!floating));
                message.append(".");
                Err(message)
            },
        }
    }

    /// What to do after the look number `attempt`, counted from zero: the watch ends when
    /// the change shows, and with the last look in any case.
    pub fn step(&self, window_id: u64, client: &HyprlandClient, attempt: usize) -> (r: GeometryStep)
        ensures
            match r {
                GeometryStep::LookAgain => !self.is_met(*client) && attempt + 1
                    < GEOMETRY_VERIFY_ATTEMPTS,
                GeometryStep::Over(said) => {
                    &&& self.is_met(*client) || attempt + 1 >= GEOMETRY_VERIFY_ATTEMPTS
                    &&& match said {
                        Ok(message) => self.report(window_id, *client) == Ok::<
                            Seq<char>,
                            Seq<char>,
                        >(message@),
                        Err(message) => self.report(window_id, *client) == Err::<
                            Seq<char>,
                            Seq<char>,
                        >(message@),
                    }
                },
            },
    {
        if !self.met(client) && attempt < GEOMETRY_VERIFY_ATTEMPTS - 1 {
            GeometryStep::LookAgain
        } else {
            GeometryStep::Over(self.outcome(window_id, client))
        }
    }
}

/// Whether a requested extent is one.
pub open spec fn is_extent(width: i32, height: i32) -> bool {
    width > 0 && height > 0
}

/// A resize is asked for with a positive extent, or not at all.
pub fn check_extent(width: i32, height: i32) -> (r: Result<(), String>)
    ensures
        match r {
            Ok(_) => is_extent(width, height),
            Err(message) => !is_extent(width, height) && message@
                == "resize requires positive width and height (got "@ + decimal(width as int)
                + "x"@ + decimal(height as int) + ")"@,
        },
{
    if width <= 0 || height <= 0 {
        let mut message = cat(
            "resize requires positive width and height (got ",
            &signed_decimal_of(width as i64),
        );
        message.append("x");
        message.append(&signed_decimal_of(height as i64));
        message.append(")");
        return Err(message);
    }
    Ok(())
}

/// A tiled window is neither moved nor resized: nothing is dispatched for one, and the
/// refusal names the tool that clears it.
pub proof fn a_tiled_window_gets_no_geometry(
    request: GeometryRequest,
    window_id: u64,
    client: HyprlandClient,
    start: GeometryStart,
)
    requires
        client.floating == Some(false),
        !(request is Float),
        call_ensures(GeometryRequest::start, (&request, window_id, &client), start),
    ensures
        start is Refused,
        start->Refused_0@ == tiled_refusal(
            window_id,
            if request is Move {
                "move"@
            } else {
                "resize"@
            },
        ),
{
}

/// Floating a tiled window is what makes it movable: a client that shows the float that
/// was asked for is refused neither a move nor a resize.
pub proof fn floating_clears_the_refusal(
    request: GeometryRequest,
    window_id: u64,
    client: HyprlandClient,
    start: GeometryStart,
)
    requires
        (GeometryRequest::Float { floating: true }).is_met(client),
        !(request is Float),
        call_ensures(GeometryRequest::start, (&request, window_id, &client), start),
    ensures
        start is Dispatch,
{
}

/// Whether the view is where a workspace request wanted it.
pub open spec fn view_reached(
    target: WorkspaceTarget,
    previous: WorkspaceSummary,
    current: WorkspaceSummary,
) -> bool {
    target.is_reached(current.id, Some(previous.id)) || (target is FirstEmpty && current.windows
        == 0)
}

/// What to do after one look at the active workspace.
#[derive(Debug, Clone, Copy, PartialEq, Eq, Structural)]
pub enum ViewStep {
    /// Pause and look again.
    LookAgain,
    /// The workspace looked at is the answer.
    Settled,
}

/// What to do after the look number `attempt`, counted from zero, at where the view is: an
/// empty workspace the view was already on counts as the first empty one.
pub fn view_step(
    target: WorkspaceTarget,
    previous: &WorkspaceSummary,
    current: &WorkspaceSummary,
    attempt: usize,
) -> (r: ViewStep)
    ensures
        r == if view_reached(target, *previous, *current) || attempt + 1
            >= GEOMETRY_VERIFY_ATTEMPTS {
            ViewStep::Settled
        } else {
            ViewStep::LookAgain
        },
{
    let empty = match target {
        WorkspaceTarget::FirstEmpty => current.windows == 0,
        WorkspaceTarget::Id(_) => false,
    };
    if target.reached(current.id, Some(previous.id)) || empty || attempt
        >= GEOMETRY_VERIFY_ATTEMPTS - 1 {
        ViewStep::Settled
    } else {
        ViewStep::LookAgain
    }
}

/// What to do after the look number `attempt`, counted from zero, at where a window is that
/// was sent to a workspace from another.
pub fn window_step(
    target: WorkspaceTarget,
    from: Option<i32>,
    to: Option<i32>,
    attempt: usize,
) -> (r: ViewStep)
    ensures
        r == if (to is Some && target.is_reached(to->0, from)) || attempt + 1
            >= GEOMETRY_VERIFY_ATTEMPTS {
            ViewStep::Settled
        } else {
            ViewStep::LookAgain
        },
{
    let reached = match to {
        Some(id) => target.reached(id, from),
        None => false,
    };
    if reached || attempt >= GEOMETRY_VERIFY_ATTEMPTS - 1 {
        ViewStep::Settled
    } else {
        ViewStep::LookAgain
    }
}

/// What to do after the look number `attempt`, counted from zero, at where the view is once a
/// window went to a workspace: a view that does not follow is looked at once.
pub fn view_after_move(
    target: WorkspaceTarget,
    follow: bool,
    previous: &WorkspaceSummary,
    current: &WorkspaceSummary,
    attempt: usize,
) -> (r: ViewStep)
    ensures
        r == if !follow || view_reached(target, *previous, *current) || attempt + 1
            >= GEOMETRY_VERIFY_ATTEMPTS {
            ViewStep::Settled
        } else {
            ViewStep::LookAgain
        },
{
    if follow {
        view_step(target, previous, current, attempt)
    } else {
        ViewStep::Settled
    }
}

/// A Hyprland instance that hyprctl could be pointed at.
#[derive(Debug)]
pub struct HyprlandInstanceCandidate {
    pub signature: String,
    pub wayland_display_matches: bool,
    /// When its socket was last modified, in nanoseconds of the system clock.
    pub modified: i128,
}

/// Whether one instance comes before another: by matching the display, then by age.
pub open spec fn is_better(a: HyprlandInstanceCandidate, b: HyprlandInstanceCandidate) -> bool {
    if a.wayland_display_matches != b.wayland_display_matches {
        a.wayland_display_matches
    } else {
        a.modified > b.modified
    }
}

/// The instance to use: no other is better, and it is the last such.
pub open spec fn is_selected(all: Seq<HyprlandInstanceCandidate>, k: int) -> bool {
    &&& 0 <= k < all.len()
    &&& forall|i: int| 0 <= i < all.len() ==> !is_better(#[trigger] all[i], all[k])
    &&& forall|i: int| k < i < all.len() ==> is_better(all[k], #[trigger] all[i])
}

/// The signature of the instance to use.
pub fn select_hyprland_instance(candidates: &[HyprlandInstanceCandidate]) -> (r: Option<String>)
    ensures
        match r {
            Some(signature) => exists|k: int| #[trigger]
                is_selected(candidates@, k) && candidates@[k].signature == signature,
            None => candidates@.len() == 0,
        },
{
    if candidates.len() == 0 {
        return None;
    }
    let mut best: usize = 0;
    for i in 1..candidates.len()
        invariant
            candidates@.len() > 0,
            best < i,
            i <= candidates@.len(),
            forall|j: int| 0 <= j < i ==> !is_better(#[trigger] candidates@[j], candidates@[
                best as int
            ]),
            forall|j: int| best < j < i ==> is_better(
                candidates@[best as int],
                #[trigger] candidates@[j],
            ),
    {
        let worse = if candidates[best].wayland_display_matches
            != candidates[i].wayland_display_matches {
            candidates[best].wayland_display_matches
        } else {
            candidates[best].modified > candidates[i].modified
        };
        if !worse {
            best = i;
        }
    }
    assert(is_selected(candidates@, best as int));
    Some(candidates[best].signature.clone())
}

/// What an instance's lock file says: the process on its first line, and the display on
/// its second where one is there.
pub open spec fn lock_says(lock: Seq<char>) -> Option<(Seq<char>, Option<Seq<char>>)> {
    let all = lines(lock);
    if all.len() == 0 || trim(all[0]).len() == 0 {
        None
    } else {
        Some(
            (
                trim(all[0]),
                if all.len() > 1 && trim(all[1]).len() > 0 {
                    Some(trim(all[1]))
                } else {
                    None
                },
            ),
        )
    }
}

/// Reading an instance's lock file.
pub fn parse_instance_lock(lock: &str) -> (r: Option<(String, Option<String>)>)
    ensures
        match r {
            Some((pid, display)) => lock_says(lock@) == Some((pid@, text_of(display))),
            None => lock_says(lock@) is None,
        },
{
    let all = lines_of(lock);
    if all.len() == 0 {
        return None;
    }
    assert(texts(all@)[0] == all@[0]@);
    let pid = trimmed(&all[0]);
    if pid.as_str().is_empty() {
        return None;
    }
    let mut display: Option<String> = None;
    if all.len() > 1 {
        assert(texts(all@)[1] == all@[1]@);
        let second = trimmed(&all[1]);
        if !second.as_str().is_empty() {
            display = Some(second);
        }
    }
    Some((pid, display))
}

/// Whether an instance is on the display that this process is on, as far as both say.
pub fn display_matches(lock_display: &Option<String>, wayland_display: &Option<String>) -> (r: bool)
    ensures
        r == (wayland_display is Some && text_of(*lock_display) == text_of(*wayland_display)),
{
    match (lock_display, wayland_display) {
        (Some(lock), Some(ours)) => same(lock, ours),
        _ => false,
    }
}

/// Whether a query came back, or how it failed.
pub fn check_query(query: &str, output: &CommandOutput) -> (r: Result<(), String>)
    ensures
        match r {
            Ok(_) => output.success,
            Err(message) => !output.success && message@ == query@ + " failed: "@
                + output.complaint(),
        },
{
    if output.success {
        return Ok(());
    }
    let mut message = cat(query, " failed: ");
    message.append(&output.stderr_text());
    Err(message)
}

/// Whether a Lua dispatch was carried out, or Hyprland's own words when it is
/// rejected.
///
/// A rejected dispatch still exits zero and prints its complaint on stdout,
/// which is why success is "the output is exactly ok" rather than the exit
/// status.
pub fn run_lua_dispatch(lua_dispatch: &str, output: &CommandOutput) -> (r: Result<(), String>)
    ensures
        match r {
            Ok(_) => output.success && output.out() == "ok"@,
            Err(message) => !(output.success && output.out() == "ok"@) && message@
                == "hyprctl dispatch "@ + lua_dispatch@ + " failed: "@ + crate::command::detail(
                *output,
            ),
        },
{
    if crate::command::dispatch_succeeded(output) {
        return Ok(());
    }
    let mut message = cat("hyprctl dispatch ", lua_dispatch);
    message.append(" failed: ");
    message.append(&crate::command::command_detail(output));
    Err(message)
}

/// The position of the client a geometry request is for.
pub fn query_client(clients: &[HyprlandClient], window_id: u64) -> (r: Result<usize, String>)
    ensures
        match r {
            Ok(k) => client_of(clients@, window_id) == Some(k as int) && k < clients@.len(),
            Err(message) => client_of(clients@, window_id) is None && message@
                == "Hyprland window 0x"@ + hex(window_id as int) + " is not in hyprctl clients -j"@,
        },
{
    match find_client(clients, window_id) {
        Some(k) => Ok(k),
        None => {
            let mut message = cat("Hyprland window 0x", &hex_of(window_id));
            message.append(" is not in hyprctl clients -j");
            Err(message)
        },
    }
}

/// A client's window is told by what the client says: its class is the app_id and the
/// wm_class, its title is the title, its corner and its extent are the bounds, and it has the
/// focus exactly where it was focused last.
pub proof fn a_window_is_what_its_client_says(window: WindowInfo, client: HyprlandClient)
    requires
        is_window_of(window, client),
    ensures
        window.app_id == client.class_name,
        window.wm_class == client.class_name,
        window.title == client.title,
        client.pid is Some && 0 <= client.pid->0 <= u32::MAX ==> window.pid is Some
            && window.pid->0 == client.pid->0,
        client.pid is None || client.pid->0 < 0 ==> window.pid is None,
        window.focused <==> client.focus_history_id is Some && client.focus_history_id->0 == 0,
        window.hidden <==> client.hidden is Some && client.hidden->0,
        client.workspace is Some ==> window.workspace == client.workspace->0.id,
        client.size is Some && client.at is Some ==> window.bounds is Some && window.bounds->0.x
            == Some(client.at->0[0]) && window.bounds->0.y == Some(client.at->0[1])
            && window.bounds->0.width == client.size->0[0] && window.bounds->0.height
            == client.size->0[1],
        client.size is None ==> window.bounds is None,
        client.xwayland == Some(true) ==> window.client_type is Some && window.client_type->0@
            == "x11"@,
        client.xwayland == Some(false) ==> window.client_type is Some && window.client_type->0@
            == "wayland"@,
{
}

/// The windows listed are those of every client that is mapped, and of no other: one that says
/// nothing of it counts as mapped.
pub proof fn mapped_clients_are_the_ones_listed(clients: Seq<HyprlandClient>, i: int)
    requires
        0 <= i < clients.len(),
    ensures
        mapped_clients(clients).contains(clients[i]) <==> clients[i].mapped is None
            || clients[i].mapped->0,
        mapped_clients(clients).len() <= clients.len(),
{
    let picks = |c: HyprlandClient| c.is_mapped();
    clients.filter_lemma(picks);
    if picks(clients[i]) {
        clients.lemma_filter_contains(picks, i);
    } else if mapped_clients(clients).contains(clients[i]) {
        let k = mapped_clients(clients).index_of(clients[i]);
        clients.lemma_filter_pred(picks, k);
    }
}

/// Bounds are moved to where they are on the capture only for a client on a known monitor that
/// has bounds; another loses them, and nothing else of any client changes.
pub proof fn only_bounds_move(
    client: HyprlandClient,
    monitor_ids: Seq<i32>,
    mapped: Option<([i32; 2], [u32; 2])>,
)
    ensures
        ({
            let moved = rebased(client, monitor_ids, mapped);
            &&& moved == (HyprlandClient { at: moved.at, size: moved.size, ..client })
            &&& moved.at is Some <==> mapped is Some && client.monitor is Some
                && monitor_ids.contains(client.monitor->0) && client.at is Some
                && client.size is Some
            &&& moved.at is Some ==> moved.at->0 == (mapped->0).0 && moved.size is Some
                && moved.size->0 == (mapped->0).1
            &&& moved.at is None ==> moved.size is None
        }),
{
}

/// The client of an id is the first one whose address writes it, and there is none exactly
/// where no address does.
pub proof fn the_client_of_an_id_has_its_address(clients: Seq<HyprlandClient>, window_id: u64)
    ensures
        match client_of(clients, window_id) {
            Some(k) => 0 <= k < clients.len() && address_id(clients[k].address@) == Some(
                window_id as int,
            ) && forall|j: int|
                0 <= j < k ==> address_id((#[trigger] clients[j]).address@) != Some(
                    window_id as int,
                ),
            None => forall|j: int|
                0 <= j < clients.len() ==> address_id((#[trigger] clients[j]).address@) != Some(
                    window_id as int,
                ),
        },
    decreases clients.len(),
{
    if clients.len() > 0 {
        let rest = clients.drop_last();
        the_client_of_an_id_has_its_address(rest, window_id);
        assert forall|j: int| 0 <= j < rest.len() implies #[trigger] clients[j] == rest[j] by {}
    }
}

/// A client is above another exactly where it is visible, on the same workspace, was focused
/// more recently and overlaps it; none is above itself.
pub proof fn what_is_above_was_focused_later_and_overlaps(
    client: HyprlandClient,
    below: HyprlandClient,
    c: i32,
    b: i32,
)
    requires
        client.focus_history_id == Some(c),
        below.focus_history_id == Some(b),
        client.at is Some,
        client.size is Some,
        below.at is Some,
        below.size is Some,
        client.size->0[0] > 0 && client.size->0[1] > 0 && below.size->0[0] > 0 && below.size->0[1]
            > 0,
        client.address@ != below.address@,
        client.mapped is None || client.mapped->0,
        client.hidden is None || !client.hidden->0,
        client.workspace is Some && below.workspace is Some,
    ensures
        is_above(client, below) <==> c < b && client.workspace->0.id == below.workspace->0.id
            && exists|x: int, y: int|
            #[trigger] in_rect(x, y, client.at->0, client.size->0) && in_rect(
                x,
                y,
                below.at->0,
                below.size->0,
            ),
{
    sharing_is_a_common_pixel(client.at->0, client.size->0, below.at->0, below.size->0);
}

/// A client that is hidden or not mapped, and a client without a record of its focus, is above
/// none; and no client is above itself.
pub proof fn what_is_not_visible_is_above_none(client: HyprlandClient, below: HyprlandClient)
    ensures
        client.hidden == Some(true) || client.mapped == Some(false) || client.focus_history_id
            is None || client.address@ == below.address@ ==> !is_above(client, below),
{
}

/// The windows in the way of a client are those of the clients above it, and all of them.
pub proof fn the_windows_in_the_way_are_those_above(
    clients: Seq<HyprlandClient>,
    below: HyprlandClient,
)
    ensures
        forall|k: int|
            0 <= k < occluders(clients, below).len() ==> exists|i: int|
                0 <= i < clients.len() && is_above(#[trigger] clients[i], below) && address_id(
                    clients[i].address@,
                ) is Some && (#[trigger] occluders(clients, below)[k]).window_id == address_id(
                    clients[i].address@,
                )->0 as u64 && occluders(clients, below)[k].title == clients[i].title,
        forall|i: int|
            0 <= i < clients.len() && is_above(#[trigger] clients[i], below) && address_id(
                clients[i].address@,
            ) is Some ==> occluders(clients, below).contains(
                WindowOcclusion {
                    window_id: address_id(clients[i].address@)->0 as u64,
                    title: clients[i].title,
                },
            ),
    decreases clients.len(),
{
    if clients.len() > 0 {
        let rest = clients.drop_last();
        let before = occluders(rest, below);
        let all = occluders(clients, below);
        the_windows_in_the_way_are_those_above(rest, below);
        assert forall|k: int| 0 <= k < all.len() implies exists|i: int|
            0 <= i < clients.len() && is_above(#[trigger] clients[i], below) && address_id(
                clients[i].address@,
            ) is Some && (#[trigger] all[k]).window_id == address_id(clients[i].address@)->0 as u64
                && all[k].title == clients[i].title by {
            if k < before.len() {
                assert(all[k] == before[k]);
                let i = choose|i: int|
                    0 <= i < rest.len() && is_above(#[trigger] rest[i], below) && address_id(
                        rest[i].address@,
                    ) is Some && before[k].window_id == address_id(rest[i].address@)->0 as u64
                        && before[k].title == rest[i].title;
                assert(clients[i] == rest[i]);
            } else {
                assert(is_above(clients[clients.len() - 1], below));
            }
        }
        assert forall|i: int|
            0 <= i < clients.len() && is_above(#[trigger] clients[i], below) && address_id(
                clients[i].address@,
            ) is Some implies all.contains(
            WindowOcclusion {
                window_id: address_id(clients[i].address@)->0 as u64,
                title: clients[i].title,
            },
        ) by {
            let item = WindowOcclusion {
                window_id: address_id(clients[i].address@)->0 as u64,
                title: clients[i].title,
            };
            if i < rest.len() {
                assert(clients[i] == rest[i]);
                assert(before.contains(item));
                let k = choose|k: int| 0 <= k < before.len() && before[k] == item;
                assert(all[k] == item);
            } else {
                assert(all[all.len() - 1] == item);
            }
        }
    }
}

/// A point that is printed as two numbers with a comma between them is read as these numbers.
pub proof fn a_printed_point_reads_back(x: i32, y: i32)
    ensures
        cursor_point(decimal(x as int) + seq![',', ' '] + decimal(y as int)) == Some(
            (x as int, y as int),
        ),
{
    let a = decimal(x as int);
    let b = decimal(y as int);
    let text = a + seq![',', ' '] + b;
    let seps = seq![','];
    let rest = seq![' '] + b;
    a_number_is_its_own_trimming(x as int);
    a_number_is_its_own_trimming(y as int);
    assert(text[0] == a[0] && text.last() == b.last());
    trim_keeps(text);
    assert(text =~= a.push(',') + rest);
    assert(seps[0] == ',');
    pieces_meet_at_a_separator(a, ',', rest, seps);
    assert forall|i: int| 0 <= i < a.len() implies !seps.contains(#[trigger] a[i]) by {}
    assert forall|i: int| 0 <= i < rest.len() implies !seps.contains(#[trigger] rest[i]) by {
        if i > 0 {
            assert(rest[i] == b[i - 1]);
        }
    }
    unseparated_text_is_one_piece(a, seps);
    unseparated_text_is_one_piece(rest, seps);
    assert(seq![a] + seq![rest] =~= seq![a, rest]);
    assert(trim(rest) == b) by {
        assert(rest.drop_first() =~= b);
        assert(trim_start(rest) == trim_start(b));
    }
    decimal_reads_back(x as int, i32::MIN as int, i32::MAX as int);
    decimal_reads_back(y as int, i32::MIN as int, i32::MAX as int);
}

proof fn a_number_is_its_own_trimming(n: int)
    ensures
        decimal(n).len() > 0,
        trim(decimal(n)) == decimal(n),
        !is_white(decimal(n)[0]),
        !is_white(decimal(n).last()),
        forall|i: int| 0 <= i < decimal(n).len() ==> #[trigger] decimal(n)[i] != ',',
{
    let size = if n < 0 {
        -n
    } else {
        n
    };
    digits_have_no_space_or_letter(size);
    digits_are_visible(size, 10);
    assert forall|i: int| 0 <= i < decimal(n).len() implies #[trigger] decimal(n)[i] != ',' by {
        if n < 0 && i > 0 {
            assert(decimal(n)[i] == digits(size, 10)[i - 1]);
        } else if n >= 0 {
            assert(decimal(n)[i] == digits(size, 10)[i]);
        }
    }
    assert(n < 0 ==> decimal(n).last() == digits(size, 10).last());
    trim_keeps(decimal(n));
}

/// A change shows where the client is as asked: at the corner, of the extent, which is a pixel
/// at least, or floating or not.
pub proof fn a_change_shows_where_the_client_is_as_asked(
    client: HyprlandClient,
    x: i32,
    y: i32,
    a: i32,
    b: i32,
    floating: bool,
)
    ensures
        (GeometryRequest::Move { x, y, target: [a, b] }).is_met(client) <==> client.at is Some
            && client.at->0[0] == a && client.at->0[1] == b,
        a >= 1 && b >= 1 ==> ((GeometryRequest::Resize {
            width: x,
            height: y,
            target: [a, b],
        }).is_met(client) <==> client.size is Some && client.size->0[0] == a && client.size->0[1]
            == b),
        (GeometryRequest::Float { floating }).is_met(client) <==> client.floating is Some
            && client.floating->0 == floating,
{
}

/// A release can be driven exactly from 0.55 on.
pub proof fn releases_are_recent_from_the_minimum_on(release: HyprlandRelease)
    ensures
        release.is_recent() <==> release.major > 0 || release.minor >= 55,
{
}

/// The version among some words is the first that starts with a digit, letters `v` before it
/// aside, and is printed without them.
pub proof fn the_version_is_the_first_word_that_is_one(list: Seq<Seq<char>>)
    ensures
        match first_version(list) {
            Some(printed) => printed.len() > 0 && '0' <= printed[0] <= '9' && exists|k: int|
                0 <= k < list.len() && printed == without_v(#[trigger] list[k]) && forall|j: int|
                    0 <= j < k ==> !is_version(#[trigger] list[j]),
            None => forall|j: int| 0 <= j < list.len() ==> !is_version(#[trigger] list[j]),
        },
    decreases list.len(),
{
    if list.len() > 0 {
        let rest = list.drop_last();
        the_version_is_the_first_word_that_is_one(rest);
        assert forall|j: int| 0 <= j < rest.len() implies #[trigger] list[j] == rest[j] by {}
        if first_version(rest) is Some {
            let printed = first_version(rest)->0;
            let k = choose|k: int|
                0 <= k < rest.len() && printed == without_v(#[trigger] rest[k]) && forall|j: int|
                    0 <= j < k ==> !is_version(#[trigger] rest[j]);
            assert(list[k] == rest[k]);
            assert forall|j: int| 0 <= j < k implies !is_version(#[trigger] list[j]) by {
                assert(list[j] == rest[j]);
            }
        } else if is_version(list.last()) {
            let k = list.len() - 1;
            assert(list[k] == list.last());
            assert forall|j: int| 0 <= j < k implies !is_version(#[trigger] list[j]) by {
                assert(list[j] == rest[j]);
            }
        }
    }
}

/// Only letters `v` are cut off the start of a version.
pub proof fn only_letters_v_are_cut_off(word: Seq<char>)
    ensures
        word.len() > 0 && word[0] == 'v' ==> without_v(word) == without_v(word.drop_first()),
        word.len() == 0 || word[0] != 'v' ==> without_v(word) == word,
{
}

/// The instance used is on this process's display wherever any is; and of those alike in that,
/// none is newer.
pub proof fn the_instance_used_is_on_this_display_and_newest(
    all: Seq<HyprlandInstanceCandidate>,
    k: int,
    j: int,
)
    requires
        is_selected(all, k),
        0 <= j < all.len(),
    ensures
        0 <= k < all.len(),
        all[j].wayland_display_matches ==> all[k].wayland_display_matches,
        all[j].wayland_display_matches == all[k].wayland_display_matches ==> all[j].modified
            <= all[k].modified,
{
    assert(!is_better(all[j], all[k]));
}

/// An instance's lock file says its process on its first line and its display on its second.
pub proof fn a_lock_file_says_process_and_display(pid: Seq<char>, display: Seq<char>)
    requires
        pid.len() > 0,
        display.len() > 0,
        forall|i: int| 0 <= i < pid.len() ==> !is_white(#[trigger] pid[i]),
        forall|i: int| 0 <= i < display.len() ==> !is_white(#[trigger] display[i]),
    ensures
        lock_says(pid.push('\n') + display) == Some((pid, Some(display))),
        lock_says(pid) == Some((pid, None::<Seq<char>>)),
{
    assert forall|i: int| 0 <= i < pid.len() implies #[trigger] pid[i] != '\n' by {
        assert(!is_white(pid[i]));
    }
    assert forall|i: int| 0 <= i < display.len() implies #[trigger] display[i] != '\n' by {
        assert(!is_white(display[i]));
    }
    lines_end_at_line_feeds(pid, display);
    lines_end_at_line_feeds(display, Seq::empty());
    assert(pid.last() != '\r') by {
        assert(!is_white(pid[pid.len() - 1]));
    }
    assert(seq![pid] + seq![display] =~= seq![pid, display]);
    trim_keeps(pid);
    trim_keeps(display);
}

/// The view is where it was asked to be on the workspace of that number; the first empty one
/// is reached where the view left its workspace, or is on one with no windows.
pub proof fn the_view_is_where_it_was_asked_to_be(
    id: i32,
    previous: WorkspaceSummary,
    current: WorkspaceSummary,
)
    ensures
        view_reached(WorkspaceTarget::Id(id), previous, current) <==> current.id == id,
        view_reached(WorkspaceTarget::FirstEmpty, previous, current) <==> current.id != previous.id
            || current.windows == 0,
{
}

/// A banner that names the compositor and then its version names the release of the version's
/// first two numbers.
pub proof fn a_banner_names_its_release(name: Seq<char>, major: u32, minor: u32)
    requires
        name.len() > 0,
        forall|i: int| 0 <= i < name.len() ==> !is_white(#[trigger] name[i]),
        !is_version(name),
    ensures
        ({
            let printed = decimal(major as int) + seq!['.'] + decimal(minor as int);
            release_named(name + seq![' '] + printed) == Some(
                (major as int, minor as int, printed),
            )
        }),
{
    let a = decimal(major as int);
    let b = decimal(minor as int);
    let printed = a + seq!['.'] + b;
    let banner = name + seq![' '] + printed;
    digits_have_no_space_or_letter(major as int);
    digits_have_no_space_or_letter(minor as int);
    digits_are_visible(major as int, 10);
    digits_are_visible(minor as int, 10);
    assert forall|i: int| 0 <= i < printed.len() implies !is_white(#[trigger] printed[i]) by {
        if i < a.len() {
            assert(printed[i] == a[i]);
        } else if i > a.len() {
            assert(printed[i] == b[i - a.len() - 1]);
        }
    }
    assert forall|i: int| 0 <= i < banner.len() implies #[trigger] banner[i] != '\n' by {
        if i < name.len() {
            assert(banner[i] == name[i]);
            assert(!is_white(name[i]));
        } else if i > name.len() {
            assert(banner[i] == printed[i - name.len() - 1]);
            assert(!is_white(printed[i - name.len() - 1]));
        }
    }
    lines_end_at_line_feeds(banner, Seq::empty());
    assert(banner =~= name.push(' ') + printed);
    words_part_at_whitespace(name, ' ', printed);
    unspaced_text_is_one_word(name);
    unspaced_text_is_one_word(printed);
    assert(seq![name] + seq![printed] =~= seq![name, printed]);
    let list = seq![name, printed];
    assert(printed[0] == a[0]);
    assert('0' <= a[0] <= '9');
    assert(without_v(printed) == printed);
    reveal_with_fuel(first_version, 3);
    assert(list.drop_last() =~= seq![name]);
    assert(seq![name].drop_last() =~= Seq::empty());
    assert(first_version(list) == Some(printed));
    let seps = seq!['.', '-', '+'];
    assert(seps[0] == '.' && seps[1] == '-' && seps[2] == '+');
    assert(printed =~= a.push('.') + b);
    pieces_meet_at_a_separator(a, '.', b, seps);
    assert forall|i: int| 0 <= i < a.len() implies !seps.contains(#[trigger] a[i]) by {
        assert('0' <= digits(major as int, 10)[i] <= '9');
    }
    assert forall|i: int| 0 <= i < b.len() implies !seps.contains(#[trigger] b[i]) by {
        assert('0' <= digits(minor as int, 10)[i] <= '9');
    }
    unseparated_text_is_one_piece(a, seps);
    unseparated_text_is_one_piece(b, seps);
    assert(seq![a] + seq![b] =~= seq![a, b]);
    decimal_reads_back(major as int, 0, u32::MAX as int);
    decimal_reads_back(minor as int, 0, u32::MAX as int);
}

/// A move and a resize are dispatched for the very window, by its address and with the two
/// numbers in their order; a window is floated by setting and tiled by unsetting.
pub proof fn a_change_is_dispatched_for_the_very_window(
    window_id: u64,
    a: i32,
    b: i32,
    x: i32,
    y: i32,
)
    ensures
        (GeometryRequest::Move { x, y, target: [a, b] }).lua(window_id)
            == "hl.dsp.window.move({ window = \""@ + ("address:0x"@ + hex(window_id as int))
            + "\", exact = true, x = "@ + decimal(a as int) + ", y = "@ + decimal(b as int)
            + " })"@,
        (GeometryRequest::Resize { width: x, height: y, target: [a, b] }).lua(window_id)
            == "hl.dsp.window.resize({ window = \""@ + ("address:0x"@ + hex(window_id as int))
            + "\", exact = true, x = "@ + decimal(a as int) + ", y = "@ + decimal(b as int)
            + " })"@,
        (GeometryRequest::Float { floating: true }).lua(window_id)
            == "hl.dsp.window.float({ window = \""@ + ("address:0x"@ + hex(window_id as int))
            + "\", action = \""@ + "set"@ + "\" })"@,
        (GeometryRequest::Float { floating: false }).lua(window_id)
            == "hl.dsp.window.float({ window = \""@ + ("address:0x"@ + hex(window_id as int))
            + "\", action = \""@ + "unset"@ + "\" })"@,
        window_workspace_lua(window_id, WorkspaceTarget::Id(a), true)
            == "hl.dsp.window.move({ window = \""@ + ("address:0x"@ + hex(window_id as int))
            + "\", workspace = "@ + decimal(a as int) + ", follow = "@ + "true"@ + " })"@,
        window_workspace_lua(window_id, WorkspaceTarget::Id(a), false)
            == "hl.dsp.window.move({ window = \""@ + ("address:0x"@ + hex(window_id as int))
            + "\", workspace = "@ + decimal(a as int) + ", follow = "@ + "false"@ + " })"@,
        workspace_lua(WorkspaceTarget::Id(a)) == "hl.dsp.focus({ workspace = "@ + decimal(
            a as int,
        ) + " })"@,
{
}

/// A dispatch was carried out exactly where it succeeded and its output is the one word for
/// it; a tiled window is refused a move and a resize, and no other is.
pub proof fn a_dispatch_was_carried_out_where_it_says_ok(
    dispatch: &str,
    output: CommandOutput,
    window_id: u64,
    client: HyprlandClient,
    operation: &str,
    ran: Result<(), String>,
    refused: Result<(), String>,
)
    requires
        call_ensures(run_lua_dispatch, (dispatch, &output), ran),
        call_ensures(refuse_if_tiled, (window_id, &client, operation), refused),
    ensures
        ran is Ok <==> output.success && trim(lossy_text(output.stdout@)) == "ok"@,
        refused is Err <==> client.floating is Some && !client.floating->0,
{
}

/// Looking for a change ends where it shows, and after eleven looks in any case.
pub proof fn looking_for_a_change_ends(
    request: GeometryRequest,
    window_id: u64,
    client: HyprlandClient,
    attempt: usize,
    step: GeometryStep,
)
    requires
        call_ensures(GeometryRequest::step, (&request, window_id, &client, attempt), step),
    ensures
        step is LookAgain <==> !request.is_met(client) && attempt < 10,
{
}

/// A resize is to an extent of a pixel at least on each axis.
pub proof fn an_extent_has_a_pixel_on_each_axis(width: i32, height: i32)
    ensures
        is_extent(width, height) <==> width >= 1 && height >= 1,
{
}

} // verus!

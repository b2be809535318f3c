//! The window record, the management rule set, and the predicates that
//! decide which windows are managed and which are tiled.
use crate::rect::{wadd, wsub, Rect};
use crate::windows_event::WindowsEventType;
use vstd::prelude::*;

verus! {

/// Title-bar style bit.
pub const WS_CAPTION: u32 = 0x00C0_0000;

/// Raised-edge extended style bit.
pub const WS_EX_WINDOWEDGE: u32 = 0x0000_0100;

/// Modal dialog frame extended style bit.
pub const WS_EX_DLGMODALFRAME: u32 = 0x0000_0001;

/// Layered window extended style bit.
pub const WS_EX_LAYERED: u32 = 0x0008_0000;

/// One OS window as the manager tracks it. Two records are the same
/// window when their handles are equal.
#[derive(Clone, Copy, Debug)]
pub struct Window {
    pub hwnd: isize,
    pub hmonitor: isize,
    pub tile: bool,
    pub resize: Option<Rect>,
}

impl PartialEq for Window {
    fn eq(&self, other: &Window) -> (r: bool)
        ensures
            r == (self.hwnd == other.hwnd),
    {
        self.hwnd == other.hwnd
    }
}

impl vstd::std_specs::cmp::PartialEqSpecImpl for Window {
    open spec fn obeys_eq_spec() -> bool {
        true
    }

    open spec fn eq_spec(&self, other: &Window) -> bool {
        self.hwnd == other.hwnd
    }
}

impl Default for Window {
    fn default() -> (r: Self)
        ensures
            r == (Window { hwnd: 0, hmonitor: 0, tile: true, resize: None }),
    {
        Window { hwnd: 0, hmonitor: 0, tile: true, resize: None }
    }
}

/// What the OS reports about a window, read at the edge; a query that
/// failed is `None`.
#[derive(Clone, Debug)]
pub struct WindowFacts {
    pub title: Option<String>,
    pub class: Option<String>,
    pub exe_path: Option<String>,
    pub cloaked: bool,
    pub style: Option<u32>,
    pub ex_style: Option<u32>,
}

/// The OS's geometry report for a window.
#[derive(Clone, Copy, Debug)]
pub struct WindowInfo {
    pub window_rect: Rect,
    pub client_rect: Rect,
    pub styles: u32,
    pub extended_styles: u32,
    pub window_status: u32,
    pub x_borders: u32,
    pub y_borders: u32,
}

/// A style query that returned zero, which the OS uses to signal failure.
#[derive(Clone, Copy, Debug, PartialEq, Eq, Structural)]
pub struct NullResult;

/// A zero answer from a style query is a failure.
pub fn nullable_to_result(v: i32) -> (r: Result<i32, NullResult>)
    ensures
        v != 0 ==> r == Ok::<i32, NullResult>(v),
        v == 0 ==> r == Err::<i32, NullResult>(NullResult),
{
    if v != 0 {
        Ok(v)
    } else {
        Err(NullResult)
    }
}

/// Start of the file name in `s[..k]`: just after its last backslash.
pub open spec fn name_start(s: Seq<char>, k: nat) -> nat
    decreases k,
{
    if k == 0 {
        0
    } else if s[k - 1] == '\\' {
        k
    } else {
        name_start(s, (k - 1) as nat)
    }
}

/// The file name of a path: what follows its last backslash.
pub open spec fn exe_name(path: Seq<char>) -> Seq<char> {
    path.subrange(name_start(path, path.len()) as int, path.len() as int)
}

proof fn lemma_name_start_bound(s: Seq<char>, k: nat)
    ensures
        name_start(s, k) <= k,
    decreases k,
{
    if k > 0 {
        lemma_name_start_bound(s, (k - 1) as nat);
    }
}

pub fn exe_name_from_path(path: &str) -> (r: String)
    ensures
        r@ == exe_name(path@),
{
    let len = path.unicode_len();
    let mut start: usize = 0;
    let mut i: usize = 0;
    while i < len
        invariant
            len == path@.len(),
            i <= len,
            start == name_start(path@, i as nat),
        decreases len - i,
    {
        if path.get_char(i) == '\\' {
            start = i + 1;
        }
        i = i + 1;
    }
    proof {
        lemma_name_start_bound(path@, len as nat);
    }
    path.substring_char(start, len).to_string()
}

/// Whether `needle` occurs in `hay` at position `i`.
pub open spec fn occurs_at(hay: Seq<char>, needle: Seq<char>, i: int) -> bool {
    0 <= i && i + needle.len() <= hay.len() && hay.subrange(i, i + needle.len()) == needle
}

/// Whether `needle` occurs anywhere in `hay`.
pub open spec fn is_substring(hay: Seq<char>, needle: Seq<char>) -> bool {
    exists|i: int| occurs_at(hay, needle, i)
}

fn chars_of(s: &str) -> (r: Vec<char>)
    ensures
        r@ == s@,
{
    let len = s.unicode_len();
    let mut r: Vec<char> = Vec::new();
    let mut i: usize = 0;
    while i < len
        invariant
            len == s@.len(),
            i <= len,
            r@ == s@.subrange(0, i as int),
        decreases len - i,
    {
        r.push(s.get_char(i));
        i = i + 1;
        proof {
            assert(r@ =~= s@.subrange(0, i as int));
        }
    }
    proof {
        assert(r@ =~= s@);
    }
    r
}

fn matches_at(hay: &Vec<char>, needle: &Vec<char>, i: usize) -> (r: bool)
    requires
        i + needle@.len() <= hay@.len(),
    ensures
        r == occurs_at(hay@, needle@, i as int),
{
    let mut j: usize = 0;
    while j < needle.len()
        invariant
            j <= needle@.len(),
            i + needle@.len() <= hay@.len(),
            hay@.len() == hay.len(),
            hay@.subrange(i as int, i + j) == needle@.subrange(0, j as int),
        decreases needle@.len() - j,
    {
        assert(i + j < hay@.len());
        if hay[i + j] != needle[j] {
            proof {
                assert(hay@.subrange(i as int, i + needle@.len())[j as int] != needle@[j as int]);
            }
            return false;
        }
        j = j + 1;
        proof {
            assert(hay@.subrange(i as int, i + j) =~= needle@.subrange(0, j as int));
        }
    }
    proof {
        assert(needle@.subrange(0, j as int) =~= needle@);
    }
    true
}

/// Whether `needle` occurs in `hay`.
pub fn contains_substring(hay: &str, needle: &str) -> (r: bool)
    ensures
        r == is_substring(hay@, needle@),
{
    let h = chars_of(hay);
    let n = chars_of(needle);
    if n.len() > h.len() {
        proof {
            assert forall|i: int| !occurs_at(hay@, needle@, i) by {}
        }
        return false;
    }
    let last = h.len() - n.len();
    let mut i: usize = 0;
    loop
        invariant
            h@ == hay@,
            n@ == needle@,
            last == h@.len() - n@.len(),
            i <= last,
            forall|k: int| 0 <= k < i ==> !occurs_at(hay@, needle@, k),
        ensures
            forall|k: int| 0 <= k <= last ==> !occurs_at(hay@, needle@, k),
        decreases last - i,
    {
        if matches_at(&h, &n, i) {
            return true;
        }
        if i == last {
            break;
        }
        i = i + 1;
    }
    proof {
        assert forall|k: int| !occurs_at(hay@, needle@, k) by {
            if occurs_at(hay@, needle@, k) {
                assert(k <= last);
            }
        }
    }
    false
}

/// The process-wide lists of windows that float instead of tiling: by
/// window class, by executable name, and by title substring.
#[derive(Clone, Debug)]
pub struct FloatRules {
    pub classes: Vec<String>,
    pub exes: Vec<String>,
    pub titles: Vec<String>,
}

/// The character sequences of a list of strings.
pub open spec fn texts(v: Seq<String>) -> Seq<Seq<char>> {
    v.map_values(|s: String| s@)
}

/// A list with `item` appended unless it is already there.
pub open spec fn with_item(list: Seq<Seq<char>>, item: Seq<char>) -> Seq<Seq<char>> {
    if list.contains(item) {
        list
    } else {
        list.push(item)
    }
}

fn list_contains(list: &Vec<String>, item: &String) -> (r: bool)
    ensures
        r == texts(list@).contains(item@),
{
    let mut i: usize = 0;
    while i < list.len()
        invariant
            i <= list@.len(),
            forall|k: int| 0 <= k < i ==> list@[k]@ != item@,
        decreases list@.len() - i,
    {
        if list[i] == *item {
            proof {
                assert(texts(list@)[i as int] == item@);
            }
            return true;
        }
        i = i + 1;
    }
    proof {
        if texts(list@).contains(item@) {
            let k = choose|k: int| 0 <= k < texts(list@).len() && texts(list@)[k] == item@;
            assert(list@[k]@ == item@);
        }
    }
    false
}

fn push_unique(list: &mut Vec<String>, item: String)
    ensures
        texts(final(list)@) == with_item(texts(old(list)@), item@),
{
    if !list_contains(list, &item) {
        let ghost before = list@;
        list.push(item);
        proof {
            assert(texts(list@) =~= texts(before).push(item@));
        }
    }
}

fn title_matches(titles: &Vec<String>, title: &String) -> (r: bool)
    ensures
        r == title_floats(texts(titles@), title@),
{
    let mut k: usize = 0;
    while k < titles.len()
        invariant
            k <= titles@.len(),
            forall|j: int| 0 <= j < k ==> !is_substring(title@, #[trigger] texts(titles@)[j]),
        decreases titles@.len() - k,
    {
        let found = contains_substring(title.as_str(), titles[k].as_str());
        proof {
            assert(texts(titles@)[k as int] == titles@[k as int]@);
        }
        if found {
            return true;
        }
        k = k + 1;
    }
    false
}

/// Whether some title rule occurs in `title`.
pub open spec fn title_floats(titles: Seq<Seq<char>>, title: Seq<char>) -> bool {
    exists|k: int| 0 <= k < titles.len() && is_substring(title, titles[k])
}

/// Whether the rule set floats a window with these facts.
pub open spec fn rules_float(rules: FloatRules, facts: WindowFacts) -> bool {
    ||| facts.class matches Some(c) && texts(rules.classes@).contains(c@)
    ||| facts.exe_path matches Some(p) && texts(rules.exes@).contains(exe_name(p@))
    ||| facts.title matches Some(t) && title_floats(texts(rules.titles@), t@)
}

impl FloatRules {
    pub fn new() -> (r: Self)
        ensures
            r.classes@.len() == 0,
            r.exes@.len() == 0,
            r.titles@.len() == 0,
    {
        FloatRules { classes: Vec::new(), exes: Vec::new(), titles: Vec::new() }
    }

    /// Adds a window class that floats, unless it is already listed.
    pub fn float_class(&mut self, class: String)
        ensures
            texts(final(self).classes@) == with_item(texts(old(self).classes@), class@),
            final(self).exes == old(self).exes,
            final(self).titles == old(self).titles,
    {
        push_unique(&mut self.classes, class);
    }

    /// Adds an executable name that floats, unless it is already listed.
    pub fn float_exe(&mut self, exe: String)
        ensures
            texts(final(self).exes@) == with_item(texts(old(self).exes@), exe@),
            final(self).classes == old(self).classes,
            final(self).titles == old(self).titles,
    {
        push_unique(&mut self.exes, exe);
    }

    /// Adds a title substring that floats, unless it is already listed.
    pub fn float_title(&mut self, title: String)
        ensures
            texts(final(self).titles@) == with_item(texts(old(self).titles@), title@),
            final(self).classes == old(self).classes,
            final(self).exes == old(self).exes,
    {
        push_unique(&mut self.titles, title);
    }

    /// Whether these rules float a window with the given facts.
    pub fn floats(&self, facts: &WindowFacts) -> (r: bool)
        ensures
            r == rules_float(*self, *facts),
    {
        if let Some(class) = &facts.class {
            if list_contains(&self.classes, class) {
                return true;
            }
        }
        if let Some(path) = &facts.exe_path {
            let exe = exe_name_from_path(path.as_str());
            if list_contains(&self.exes, &exe) {
                return true;
            }
        }
        if let Some(title) = &facts.title {
            return title_matches(&self.titles, title);
        }
        false
    }
}

/// Executables whose layered windows are still managed.
pub open spec fn layered_allowed(exe: Seq<char>) -> bool {
    exe == "steam.exe"@
}

/// Whether a window with these facts should ever be tracked, given the
/// event that brought it up.
pub open spec fn manageable(facts: WindowFacts, event: Option<WindowsEventType>) -> bool {
    &&& (facts.title matches Some(t) && t@.len() > 0)
    &&& (event == Some(WindowsEventType::Hide) || !facts.cloaked)
    &&& facts.style matches Some(style)
    &&& facts.ex_style matches Some(ex)
    &&& facts.exe_path matches Some(path)
    &&& style & WS_CAPTION == WS_CAPTION
    &&& ex & WS_EX_WINDOWEDGE == WS_EX_WINDOWEDGE
    &&& ex & WS_EX_DLGMODALFRAME != WS_EX_DLGMODALFRAME
    &&& (layered_allowed(exe_name(path@)) || ex & WS_EX_LAYERED != WS_EX_LAYERED)
}

/// Whether a window is laid out by the tiling engine.
pub open spec fn tiles(w: Window, floats_by_rule: bool) -> bool {
    w.tile && !floats_by_rule
}

impl Window {
    pub fn toggle_float(&mut self)
        ensures
            *final(self) == (Window { tile: !old(self).tile, ..*old(self) }),
    {
        self.tile = !self.tile;
    }

    /// Whether the window is tiled: its own float flag is clear and no
    /// rule floats it.
    pub fn should_tile(&self, rules: &FloatRules, facts: &WindowFacts) -> (r: bool)
        ensures
            r == tiles(*self, rules_float(*rules, *facts)),
    {
        if !self.tile {
            return false;
        }
        !rules.floats(facts)
    }

    /// Whether the window should be tracked at all.
    pub fn should_manage(&self, facts: &WindowFacts, event: Option<WindowsEventType>) -> (r: bool)
        ensures
            r == manageable(*facts, event),
    {
        match &facts.title {
            None => {
                return false;
            },
            Some(t) => {
                if t.as_str().unicode_len() == 0 {
                    return false;
                }
            },
        }
        let allow_cloaked = match event {
            Some(WindowsEventType::Hide) => true,
            _ => false,
        };
        if !allow_cloaked && facts.cloaked {
            return false;
        }
        match (facts.style, facts.ex_style, &facts.exe_path) {
            (Some(style), Some(ex), Some(path)) => {
                let exe = exe_name_from_path(path.as_str());
                let steam = String::from_str("steam.exe");
                let allow_layered = exe == steam;
                style & WS_CAPTION == WS_CAPTION && ex & WS_EX_WINDOWEDGE == WS_EX_WINDOWEDGE && ex
                    & WS_EX_DLGMODALFRAME != WS_EX_DLGMODALFRAME && (allow_layered || ex & WS_EX_LAYERED
                    != WS_EX_LAYERED)
            },
            _ => false,
        }
    }

    /// Whether the OS reports the window as active.
    pub fn is_active(self, info: &WindowInfo) -> (r: bool)
        ensures
            r == (info.window_status == 1),
    {
        info.window_status == 1
    }

    /// The thickness of the invisible border around the client area,
    /// horizontally and vertically.
    pub fn transparent_border(self, info: &WindowInfo) -> (r: (i32, i32))
        ensures
            r.0 == wadd(wsub(info.window_rect.x, info.client_rect.x), wsub(info.window_rect.width, info.client_rect.width)),
            r.1 == wadd(wsub(info.window_rect.y, info.client_rect.y), wsub(info.window_rect.height, info.client_rect.height)),
    {
        let w = info.window_rect;
        let c = info.client_rect;
        let x = w.x.wrapping_sub(c.x).wrapping_add(w.width.wrapping_sub(c.width));
        let y = w.y.wrapping_sub(c.y).wrapping_add(w.height.wrapping_sub(c.height));
        (x, y)
    }

    /// Position of the first window in `windows` with this handle.
    pub fn index(self, windows: &[Window]) -> (r: Option<usize>)
        ensures
            r matches Some(i) ==> i < windows@.len() && windows@[i as int].hwnd == self.hwnd
                && forall|k: int| 0 <= k < i ==> windows@[k].hwnd != self.hwnd,
            r is None ==> forall|k: int| 0 <= k < windows@.len() ==> windows@[k].hwnd != self.hwnd,
    {
        let mut i: usize = 0;
        while i < windows.len()
            invariant
                i <= windows@.len(),
                forall|k: int| 0 <= k < i ==> windows@[k].hwnd != self.hwnd,
            decreases windows@.len() - i,
        {
            if windows[i].hwnd == self.hwnd {
                return Some(i);
            }
            i = i + 1;
        }
        None
    }
}

} // verus!

//! The computed value of the `cursor` property: either the automatic
//! cursor or one of the specified cursor keywords.

use vstd::prelude::*;

verus! {

/// A specified cursor keyword.
#[derive(Clone, Copy, PartialEq, Eq, Structural, Debug)]
pub enum Cursor {
    NoCursor,
    DefaultCursor,
    PointerCursor,
    ContextMenuCursor,
    HelpCursor,
    ProgressCursor,
    WaitCursor,
    CellCursor,
    CrosshairCursor,
    TextCursor,
    VerticalTextCursor,
    AliasCursor,
    CopyCursor,
    MoveCursor,
    NoDropCursor,
    NotAllowedCursor,
    GrabCursor,
    GrabbingCursor,
    EResizeCursor,
    NResizeCursor,
    NeResizeCursor,
    NwResizeCursor,
    SResizeCursor,
    SeResizeCursor,
    SwResizeCursor,
    WResizeCursor,
    EwResizeCursor,
    NsResizeCursor,
    NeswResizeCursor,
    NwseResizeCursor,
    ColResizeCursor,
    RowResizeCursor,
    AllScrollCursor,
    ZoomInCursor,
    ZoomOutCursor,
}

/// The computed value of the `cursor` property.
#[derive(Clone, Copy, PartialEq, Eq, Structural, Debug)]
pub enum T {
    AutoCursor,
    SpecifiedCursor(Cursor),
}

/// The initial value of the `cursor` property: automatic.
pub fn get_initial_value() -> (r: T)
    ensures
        r == T::AutoCursor,
{
    T::AutoCursor
}

/// The CSS keyword for a specified cursor.
pub open spec fn spec_cursor_keyword(c: Cursor) -> Seq<char> {
    match c {
        Cursor::NoCursor => "none"@,
        Cursor::DefaultCursor => "default"@,
        Cursor::PointerCursor => "pointer"@,
        Cursor::ContextMenuCursor => "context-menu"@,
        Cursor::HelpCursor => "help"@,
        Cursor::ProgressCursor => "progress"@,
        Cursor::WaitCursor => "wait"@,
        Cursor::CellCursor => "cell"@,
        Cursor::CrosshairCursor => "crosshair"@,
        Cursor::TextCursor => "text"@,
        Cursor::VerticalTextCursor => "vertical-text"@,
        Cursor::AliasCursor => "alias"@,
        Cursor::CopyCursor => "copy"@,
        Cursor::MoveCursor => "move"@,
        Cursor::NoDropCursor => "no-drop"@,
        Cursor::NotAllowedCursor => "not-allowed"@,
        Cursor::GrabCursor => "grab"@,
        Cursor::GrabbingCursor => "grabbing"@,
        Cursor::EResizeCursor => "e-resize"@,
        Cursor::NResizeCursor => "n-resize"@,
        Cursor::NeResizeCursor => "ne-resize"@,
        Cursor::NwResizeCursor => "nw-resize"@,
        Cursor::SResizeCursor => "s-resize"@,
        Cursor::SeResizeCursor => "se-resize"@,
        Cursor::SwResizeCursor => "sw-resize"@,
        Cursor::WResizeCursor => "w-resize"@,
        Cursor::EwResizeCursor => "ew-resize"@,
        Cursor::NsResizeCursor => "ns-resize"@,
        Cursor::NeswResizeCursor => "nesw-resize"@,
        Cursor::NwseResizeCursor => "nwse-resize"@,
        Cursor::ColResizeCursor => "col-resize"@,
        Cursor::RowResizeCursor => "row-resize"@,
        Cursor::AllScrollCursor => "all-scroll"@,
        Cursor::ZoomInCursor => "zoom-in"@,
        Cursor::ZoomOutCursor => "zoom-out"@,
    }
}

impl Cursor {
    /// The keyword this cursor is written as in CSS.
    pub fn css_keyword(self) -> (r: String)
        ensures
            r@ == spec_cursor_keyword(self),
    {
        match self {
            Cursor::NoCursor => String::from_str("none"),
            Cursor::DefaultCursor => String::from_str("default"),
            Cursor::PointerCursor => String::from_str("pointer"),
            Cursor::ContextMenuCursor => String::from_str("context-menu"),
            Cursor::HelpCursor => String::from_str("help"),
            Cursor::ProgressCursor => String::from_str("progress"),
            Cursor::WaitCursor => String::from_str("wait"),
            Cursor::CellCursor => String::from_str("cell"),
            Cursor::CrosshairCursor => String::from_str("crosshair"),
            Cursor::TextCursor => String::from_str("text"),
            Cursor::VerticalTextCursor => String::from_str("vertical-text"),
            Cursor::AliasCursor => String::from_str("alias"),
            Cursor::CopyCursor => String::from_str("copy"),
            Cursor::MoveCursor => String::from_str("move"),
            Cursor::NoDropCursor => String::from_str("no-drop"),
            Cursor::NotAllowedCursor => String::from_str("not-allowed"),
            Cursor::GrabCursor => String::from_str("grab"),
            Cursor::GrabbingCursor => String::from_str("grabbing"),
            Cursor::EResizeCursor => String::from_str("e-resize"),
            Cursor::NResizeCursor => String::from_str("n-resize"),
            Cursor::NeResizeCursor => String::from_str("ne-resize"),
            Cursor::NwResizeCursor => String::from_str("nw-resize"),
            Cursor::SResizeCursor => String::from_str("s-resize"),
            Cursor::SeResizeCursor => String::from_str("se-resize"),
            Cursor::SwResizeCursor => String::from_str("sw-resize"),
            Cursor::WResizeCursor => String::from_str("w-resize"),
            Cursor::EwResizeCursor => String::from_str("ew-resize"),
            Cursor::NsResizeCursor => String::from_str("ns-resize"),
            Cursor::NeswResizeCursor => String::from_str("nesw-resize"),
            Cursor::NwseResizeCursor => String::from_str("nwse-resize"),
            Cursor::ColResizeCursor => String::from_str("col-resize"),
            Cursor::RowResizeCursor => String::from_str("row-resize"),
            Cursor::AllScrollCursor => String::from_str("all-scroll"),
            Cursor::ZoomInCursor => String::from_str("zoom-in"),
            Cursor::ZoomOutCursor => String::from_str("zoom-out"),
        }
    }
}

/// How a computed cursor value is written in CSS.
pub open spec fn spec_to_css(t: T) -> Seq<char> {
    match t {
        T::AutoCursor => "auto"@,
        T::SpecifiedCursor(c) => spec_cursor_keyword(c),
    }
}

impl T {
    /// Writes the value as its CSS keyword.
    pub fn to_css_string(self) -> (r: String)
        ensures
            r@ == spec_to_css(self),
    {
        match self {
            T::AutoCursor => String::from_str("auto"),
            T::SpecifiedCursor(c) => c.css_keyword(),
        }
    }
}

/// The ASCII-lowercase counterpart of a character; characters outside
/// `A`..`Z` are unchanged.
pub open spec fn spec_lower_char(c: char) -> char {
    if c == 'A' {
        'a'
    } else if c == 'B' {
        'b'
    } else if c == 'C' {
        'c'
    } else if c == 'D' {
        'd'
    } else if c == 'E' {
        'e'
    } else if c == 'F' {
        'f'
    } else if c == 'G' {
        'g'
    } else if c == 'H' {
        'h'
    } else if c == 'I' {
        'i'
    } else if c == 'J' {
        'j'
    } else if c == 'K' {
        'k'
    } else if c == 'L' {
        'l'
    } else if c == 'M' {
        'm'
    } else if c == 'N' {
        'n'
    } else if c == 'O' {
        'o'
    } else if c == 'P' {
        'p'
    } else if c == 'Q' {
        'q'
    } else if c == 'R' {
        'r'
    } else if c == 'S' {
        's'
    } else if c == 'T' {
        't'
    } else if c == 'U' {
        'u'
    } else if c == 'V' {
        'v'
    } else if c == 'W' {
        'w'
    } else if c == 'X' {
        'x'
    } else if c == 'Y' {
        'y'
    } else if c == 'Z' {
        'z'
    } else {
        c
    }
}

/// A character sequence with every ASCII uppercase letter lowered.
pub open spec fn lower_seq(s: Seq<char>) -> Seq<char> {
    s.map_values(|c: char| spec_lower_char(c))
}

/// The ASCII-lowercase counterpart of a character.
pub fn lower_char(c: char) -> (r: char)
    ensures
        r == spec_lower_char(c),
{
    if 'A' <= c && c <= 'Z' {
        (((c as u8) + 32) as char)
    } else {
        c
    }
}

/// Whether two strings are equal up to ASCII case.
pub fn eq_ignore_ascii_case(a: &str, b: &str) -> (r: bool)
    ensures
        r == (lower_seq(a@) == lower_seq(b@)),
{
    let a_len = a.unicode_len();
    let b_len = b.unicode_len();
    if a_len != b_len {
        proof {
            assert(lower_seq(a@).len() != lower_seq(b@).len());
        }
        return false;
    }
    let mut i: usize = 0;
    while i < a_len
        invariant
            0 <= i <= a_len,
            a@.len() == a_len,
            b@.len() == b_len,
            a_len == b_len,
            forall|j: int| 0 <= j < i ==> lower_seq(a@)[j] == lower_seq(b@)[j],
        decreases a_len - i,
    {
        let ca = lower_char(a.get_char(i));
        let cb = lower_char(b.get_char(i));
        if ca != cb {
            proof {
                assert(lower_seq(a@)[i as int] != lower_seq(b@)[i as int]);
            }
            return false;
        }
        i = i + 1;
    }
    proof {
        assert(lower_seq(a@) =~= lower_seq(b@));
    }
    true
}

/// The cursor named by a CSS keyword, compared without regard to ASCII
/// case, if the keyword names one.
pub open spec fn spec_cursor_from_keyword(s: Seq<char>) -> Option<Cursor> {
    if lower_seq(s) == "none"@ {
        Some(Cursor::NoCursor)
    } else if lower_seq(s) == "default"@ {
        Some(Cursor::DefaultCursor)
    } else if lower_seq(s) == "pointer"@ {
        Some(Cursor::PointerCursor)
    } else if lower_seq(s) == "context-menu"@ {
        Some(Cursor::ContextMenuCursor)
    } else if lower_seq(s) == "help"@ {
        Some(Cursor::HelpCursor)
    } else if lower_seq(s) == "progress"@ {
        Some(Cursor::ProgressCursor)
    } else if lower_seq(s) == "wait"@ {
        Some(Cursor::WaitCursor)
    } else if lower_seq(s) == "cell"@ {
        Some(Cursor::CellCursor)
    } else if lower_seq(s) == "crosshair"@ {
        Some(Cursor::CrosshairCursor)
    } else if lower_seq(s) == "text"@ {
        Some(Cursor::TextCursor)
    } else if lower_seq(s) == "vertical-text"@ {
        Some(Cursor::VerticalTextCursor)
    } else if lower_seq(s) == "alias"@ {
        Some(Cursor::AliasCursor)
    } else if lower_seq(s) == "copy"@ {
        Some(Cursor::CopyCursor)
    } else if lower_seq(s) == "move"@ {
        Some(Cursor::MoveCursor)
    } else if lower_seq(s) == "no-drop"@ {
        Some(Cursor::NoDropCursor)
    } else if lower_seq(s) == "not-allowed"@ {
        Some(Cursor::NotAllowedCursor)
    } else if lower_seq(s) == "grab"@ {
        Some(Cursor::GrabCursor)
    } else if lower_seq(s) == "grabbing"@ {
        Some(Cursor::GrabbingCursor)
    } else if lower_seq(s) == "e-resize"@ {
        Some(Cursor::EResizeCursor)
    } else if lower_seq(s) == "n-resize"@ {
        Some(Cursor::NResizeCursor)
    } else if lower_seq(s) == "ne-resize"@ {
        Some(Cursor::NeResizeCursor)
    } else if lower_seq(s) == "nw-resize"@ {
        Some(Cursor::NwResizeCursor)
    } else if lower_seq(s) == "s-resize"@ {
        Some(Cursor::SResizeCursor)
    } else if lower_seq(s) == "se-resize"@ {
        Some(Cursor::SeResizeCursor)
    } else if lower_seq(s) == "sw-resize"@ {
        Some(Cursor::SwResizeCursor)
    } else if lower_seq(s) == "w-resize"@ {
        Some(Cursor::WResizeCursor)
    } else if lower_seq(s) == "ew-resize"@ {
        Some(Cursor::EwResizeCursor)
    } else if lower_seq(s) == "ns-resize"@ {
        Some(Cursor::NsResizeCursor)
    } else if lower_seq(s) == "nesw-resize"@ {
        Some(Cursor::NeswResizeCursor)
    } else if lower_seq(s) == "nwse-resize"@ {
        Some(Cursor::NwseResizeCursor)
    } else if lower_seq(s) == "col-resize"@ {
        Some(Cursor::ColResizeCursor)
    } else if lower_seq(s) == "row-resize"@ {
        Some(Cursor::RowResizeCursor)
    } else if lower_seq(s) == "all-scroll"@ {
        Some(Cursor::AllScrollCursor)
    } else if lower_seq(s) == "zoom-in"@ {
        Some(Cursor::ZoomInCursor)
    } else if lower_seq(s) == "zoom-out"@ {
        Some(Cursor::ZoomOutCursor)
    } else {
        None
    }
}

/// The parsed `cursor` value for an identifier: `auto`, a cursor keyword,
/// or a parse error.
pub open spec fn spec_parse(s: Seq<char>) -> Result<T, ()> {
    if lower_seq(s) == "auto"@ {
        Ok(T::AutoCursor)
    } else {
        match spec_cursor_from_keyword(s) {
            Some(c) => Ok(T::SpecifiedCursor(c)),
            None => Err(()),
        }
    }
}

/// Keyword literals are fixed points of ASCII lowering.
proof fn lemma_keywords_are_lowercase()
    ensures
        lower_seq("auto"@) == "auto"@,
        lower_seq("none"@) == "none"@,
        lower_seq("default"@) == "default"@,
        lower_seq("pointer"@) == "pointer"@,
        lower_seq("context-menu"@) == "context-menu"@,
        lower_seq("help"@) == "help"@,
        lower_seq("progress"@) == "progress"@,
        lower_seq("wait"@) == "wait"@,
        lower_seq("cell"@) == "cell"@,
        lower_seq("crosshair"@) == "crosshair"@,
        lower_seq("text"@) == "text"@,
        lower_seq("vertical-text"@) == "vertical-text"@,
        lower_seq("alias"@) == "alias"@,
        lower_seq("copy"@) == "copy"@,
        lower_seq("move"@) == "move"@,
        lower_seq("no-drop"@) == "no-drop"@,
        lower_seq("not-allowed"@) == "not-allowed"@,
        lower_seq("grab"@) == "grab"@,
        lower_seq("grabbing"@) == "grabbing"@,
        lower_seq("e-resize"@) == "e-resize"@,
        lower_seq("n-resize"@) == "n-resize"@,
        lower_seq("ne-resize"@) == "ne-resize"@,
        lower_seq("nw-resize"@) == "nw-resize"@,
        lower_seq("s-resize"@) == "s-resize"@,
        lower_seq("se-resize"@) == "se-resize"@,
        lower_seq("sw-resize"@) == "sw-resize"@,
        lower_seq("w-resize"@) == "w-resize"@,
        lower_seq("ew-resize"@) == "ew-resize"@,
        lower_seq("ns-resize"@) == "ns-resize"@,
        lower_seq("nesw-resize"@) == "nesw-resize"@,
        lower_seq("nwse-resize"@) == "nwse-resize"@,
        lower_seq("col-resize"@) == "col-resize"@,
        lower_seq("row-resize"@) == "row-resize"@,
        lower_seq("all-scroll"@) == "all-scroll"@,
        lower_seq("zoom-in"@) == "zoom-in"@,
        lower_seq("zoom-out"@) == "zoom-out"@,
{
    reveal_strlit("auto");
    assert(lower_seq("auto"@) =~= "auto"@);
    reveal_strlit("none");
    assert(lower_seq("none"@) =~= "none"@);
    reveal_strlit("default");
    assert(lower_seq("default"@) =~= "default"@);
    reveal_strlit("pointer");
    assert(lower_seq("pointer"@) =~= "pointer"@);
    reveal_strlit("context-menu");
    assert(lower_seq("context-menu"@) =~= "context-menu"@);
    reveal_strlit("help");
    assert(lower_seq("help"@) =~= "help"@);
    reveal_strlit("progress");
    assert(lower_seq("progress"@) =~= "progress"@);
    reveal_strlit("wait");
    assert(lower_seq("wait"@) =~= "wait"@);
    reveal_strlit("cell");
    assert(lower_seq("cell"@) =~= "cell"@);
    reveal_strlit("crosshair");
    assert(lower_seq("crosshair"@) =~= "crosshair"@);
    reveal_strlit("text");
    assert(lower_seq("text"@) =~= "text"@);
    reveal_strlit("vertical-text");
    assert(lower_seq("vertical-text"@) =~= "vertical-text"@);
    reveal_strlit("alias");
    assert(lower_seq("alias"@) =~= "alias"@);
    reveal_strlit("copy");
    assert(lower_seq("copy"@) =~= "copy"@);
    reveal_strlit("move");
    assert(lower_seq("move"@) =~= "move"@);
    reveal_strlit("no-drop");
    assert(lower_seq("no-drop"@) =~= "no-drop"@);
    reveal_strlit("not-allowed");
    assert(lower_seq("not-allowed"@) =~= "not-allowed"@);
    reveal_strlit("grab");
    assert(lower_seq("grab"@) =~= "grab"@);
    reveal_strlit("grabbing");
    assert(lower_seq("grabbing"@) =~= "grabbing"@);
    reveal_strlit("e-resize");
    assert(lower_seq("e-resize"@) =~= "e-resize"@);
    reveal_strlit("n-resize");
    assert(lower_seq("n-resize"@) =~= "n-resize"@);
    reveal_strlit("ne-resize");
    assert(lower_seq("ne-resize"@) =~= "ne-resize"@);
    reveal_strlit("nw-resize");
    assert(lower_seq("nw-resize"@) =~= "nw-resize"@);
    reveal_strlit("s-resize");
    assert(lower_seq("s-resize"@) =~= "s-resize"@);
    reveal_strlit("se-resize");
    assert(lower_seq("se-resize"@) =~= "se-resize"@);
    reveal_strlit("sw-resize");
    assert(lower_seq("sw-resize"@) =~= "sw-resize"@);
    reveal_strlit("w-resize");
    assert(lower_seq("w-resize"@) =~= "w-resize"@);
    reveal_strlit("ew-resize");
    assert(lower_seq("ew-resize"@) =~= "ew-resize"@);
    reveal_strlit("ns-resize");
    assert(lower_seq("ns-resize"@) =~= "ns-resize"@);
    reveal_strlit("nesw-resize");
    assert(lower_seq("nesw-resize"@) =~= "nesw-resize"@);
    reveal_strlit("nwse-resize");
    assert(lower_seq("nwse-resize"@) =~= "nwse-resize"@);
    reveal_strlit("col-resize");
    assert(lower_seq("col-resize"@) =~= "col-resize"@);
    reveal_strlit("row-resize");
    assert(lower_seq("row-resize"@) =~= "row-resize"@);
    reveal_strlit("all-scroll");
    assert(lower_seq("all-scroll"@) =~= "all-scroll"@);
    reveal_strlit("zoom-in");
    assert(lower_seq("zoom-in"@) =~= "zoom-in"@);
    reveal_strlit("zoom-out");
    assert(lower_seq("zoom-out"@) =~= "zoom-out"@);
}

/// Maps a CSS keyword to its cursor, without regard to ASCII case; an
/// unknown keyword maps to nothing.
pub fn cursor_from_css_keyword(ident: &str) -> (r: Option<Cursor>)
    ensures
        r == spec_cursor_from_keyword(ident@),
{
    proof {
        lemma_keywords_are_lowercase();
    }
    if eq_ignore_ascii_case(ident, "none") {
        return Some(Cursor::NoCursor);
    }
    if eq_ignore_ascii_case(ident, "default") {
        return Some(Cursor::DefaultCursor);
    }
    if eq_ignore_ascii_case(ident, "pointer") {
        return Some(Cursor::PointerCursor);
    }
    if eq_ignore_ascii_case(ident, "context-menu") {
        return Some(Cursor::ContextMenuCursor);
    }
    if eq_ignore_ascii_case(ident, "help") {
        return Some(Cursor::HelpCursor);
    }
    if eq_ignore_ascii_case(ident, "progress") {
        return Some(Cursor::ProgressCursor);
    }
    if eq_ignore_ascii_case(ident, "wait") {
        return Some(Cursor::WaitCursor);
    }
    if eq_ignore_ascii_case(ident, "cell") {
        return Some(Cursor::CellCursor);
    }
    if eq_ignore_ascii_case(ident, "crosshair") {
        return Some(Cursor::CrosshairCursor);
    }
    if eq_ignore_ascii_case(ident, "text") {
        return Some(Cursor::TextCursor);
    }
    if eq_ignore_ascii_case(ident, "vertical-text") {
        return Some(Cursor::VerticalTextCursor);
    }
    if eq_ignore_ascii_case(ident, "alias") {
        return Some(Cursor::AliasCursor);
    }
    if eq_ignore_ascii_case(ident, "copy") {
        return Some(Cursor::CopyCursor);
    }
    if eq_ignore_ascii_case(ident, "move") {
        return Some(Cursor::MoveCursor);
    }
    if eq_ignore_ascii_case(ident, "no-drop") {
        return Some(Cursor::NoDropCursor);
    }
    if eq_ignore_ascii_case(ident, "not-allowed") {
        return Some(Cursor::NotAllowedCursor);
    }
    if eq_ignore_ascii_case(ident, "grab") {
        return Some(Cursor::GrabCursor);
    }
    if eq_ignore_ascii_case(ident, "grabbing") {
        return Some(Cursor::GrabbingCursor);
    }
    if eq_ignore_ascii_case(ident, "e-resize") {
        return Some(Cursor::EResizeCursor);
    }
    if eq_ignore_ascii_case(ident, "n-resize") {
        return Some(Cursor::NResizeCursor);
    }
    if eq_ignore_ascii_case(ident, "ne-resize") {
        return Some(Cursor::NeResizeCursor);
    }
    if eq_ignore_ascii_case(ident, "nw-resize") {
        return Some(Cursor::NwResizeCursor);
    }
    if eq_ignore_ascii_case(ident, "s-resize") {
        return Some(Cursor::SResizeCursor);
    }
    if eq_ignore_ascii_case(ident, "se-resize") {
        return Some(Cursor::SeResizeCursor);
    }
    if eq_ignore_ascii_case(ident, "sw-resize") {
        return Some(Cursor::SwResizeCursor);
    }
    if eq_ignore_ascii_case(ident, "w-resize") {
        return Some(Cursor::WResizeCursor);
    }
    if eq_ignore_ascii_case(ident, "ew-resize") {
        return Some(Cursor::EwResizeCursor);
    }
    if eq_ignore_ascii_case(ident, "ns-resize") {
        return Some(Cursor::NsResizeCursor);
    }
    if eq_ignore_ascii_case(ident, "nesw-resize") {
        return Some(Cursor::NeswResizeCursor);
    }
    if eq_ignore_ascii_case(ident, "nwse-resize") {
        return Some(Cursor::NwseResizeCursor);
    }
    if eq_ignore_ascii_case(ident, "col-resize") {
        return Some(Cursor::ColResizeCursor);
    }
    if eq_ignore_ascii_case(ident, "row-resize") {
        return Some(Cursor::RowResizeCursor);
    }
    if eq_ignore_ascii_case(ident, "all-scroll") {
        return Some(Cursor::AllScrollCursor);
    }
    if eq_ignore_ascii_case(ident, "zoom-in") {
        return Some(Cursor::ZoomInCursor);
    }
    if eq_ignore_ascii_case(ident, "zoom-out") {
        return Some(Cursor::ZoomOutCursor);
    }
    None
}

/// Parses the value of the `cursor` property from an already-tokenized
/// identifier: `auto` (without regard to ASCII case) or one of the cursor
/// keywords; anything else is rejected.
pub fn parse(ident: &str) -> (r: Result<T, ()>)
    ensures
        r == spec_parse(ident@),
{
    proof {
        lemma_keywords_are_lowercase();
    }
    if eq_ignore_ascii_case(ident, "auto") {
        Ok(T::AutoCursor)
    } else {
        match cursor_from_css_keyword(ident) {
            Some(c) => Ok(T::SpecifiedCursor(c)),
            None => Err(()),
        }
    }
}

} // verus!

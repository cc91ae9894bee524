//! Terminal text: a string paired with the count of its visible
//! characters, so styling escape sequences never disturb alignment, plus
//! the table of the escape sequences themselves.

pub mod utils;

use crate::text::{char_repeat, str_eq};
use vstd::prelude::*;

verus! {

/// The escape sequence that paints the foreground in the named color.
pub open spec fn fg_code(color: Seq<char>) -> Option<Seq<char>> {
    if color == "black"@ {
        Some("\x1b[30m"@)
    } else if color == "red"@ {
        Some("\x1b[31m"@)
    } else if color == "green"@ {
        Some("\x1b[32m"@)
    } else if color == "yellow"@ {
        Some("\x1b[33m"@)
    } else if color == "blue"@ {
        Some("\x1b[34m"@)
    } else if color == "magenta"@ {
        Some("\x1b[35m"@)
    } else if color == "cyan"@ {
        Some("\x1b[36m"@)
    } else if color == "white"@ {
        Some("\x1b[37m"@)
    } else {
        None
    }
}

/// The escape sequence that paints the background in the named color.
pub open spec fn bg_code(color: Seq<char>) -> Option<Seq<char>> {
    if color == "black"@ {
        Some("\x1b[40m"@)
    } else if color == "red"@ {
        Some("\x1b[41m"@)
    } else if color == "green"@ {
        Some("\x1b[42m"@)
    } else if color == "yellow"@ {
        Some("\x1b[43m"@)
    } else if color == "blue"@ {
        Some("\x1b[44m"@)
    } else if color == "magenta"@ {
        Some("\x1b[45m"@)
    } else if color == "cyan"@ {
        Some("\x1b[46m"@)
    } else if color == "white"@ {
        Some("\x1b[47m"@)
    } else {
        None
    }
}

/// The escape-sequence table, by category and key: styles and their
/// resets, foreground and background colors and their resets, and the
/// screen-erase and cursor-reset controls.
pub open spec fn escseq_of(cat: Seq<char>, key: Seq<char>) -> Option<Seq<char>> {
    if cat == "erase"@ {
        if key == "screen"@ {
            Some("\x1b[2J"@)
        } else {
            None
        }
    } else if cat == "style"@ {
        if key == "bold"@ {
            Some("\x1b[1m"@)
        } else if key == "dim"@ {
            Some("\x1b[2m"@)
        } else if key == "italic"@ {
            Some("\x1b[3m"@)
        } else if key == "underline"@ {
            Some("\x1b[4m"@)
        } else if key == "strikethrough"@ {
            Some("\x1b[9m"@)
        } else {
            None
        }
    } else if cat == "reset"@ {
        if key == "cursor"@ {
            Some("\x1b[H"@)
        } else if key == "bold/dim"@ {
            Some("\x1b[22m"@)
        } else if key == "italic"@ {
            Some("\x1b[23m"@)
        } else if key == "underline"@ {
            Some("\x1b[24m"@)
        } else if key == "strikethrough"@ {
            Some("\x1b[29m"@)
        } else if key == "foreground"@ {
            Some("\x1b[39m"@)
        } else if key == "background"@ {
            Some("\x1b[49m"@)
        } else if key == "all"@ {
            Some("\x1b[0m"@)
        } else {
            None
        }
    } else if cat == "foreground"@ {
        fg_code(key)
    } else if cat == "background"@ {
        bg_code(key)
    } else {
        None
    }
}

/// Looks the foreground escape sequence of a color name up.
fn fg_code_str(color: &str) -> (r: Option<&'static str>)
    ensures
        match fg_code(color@) {
            Some(seq) => r matches Some(s) && s@ == seq,
            None => r is None,
        },
{
    if str_eq(color, "black") {
        Some("\x1b[30m")
    } else if str_eq(color, "red") {
        Some("\x1b[31m")
    } else if str_eq(color, "green") {
        Some("\x1b[32m")
    } else if str_eq(color, "yellow") {
        Some("\x1b[33m")
    } else if str_eq(color, "blue") {
        Some("\x1b[34m")
    } else if str_eq(color, "magenta") {
        Some("\x1b[35m")
    } else if str_eq(color, "cyan") {
        Some("\x1b[36m")
    } else if str_eq(color, "white") {
        Some("\x1b[37m")
    } else {
        None
    }
}

/// Looks the background escape sequence of a color name up.
fn bg_code_str(color: &str) -> (r: Option<&'static str>)
    ensures
        match bg_code(color@) {
            Some(seq) => r matches Some(s) && s@ == seq,
            None => r is None,
        },
{
    if str_eq(color, "black") {
        Some("\x1b[40m")
    } else if str_eq(color, "red") {
        Some("\x1b[41m")
    } else if str_eq(color, "green") {
        Some("\x1b[42m")
    } else if str_eq(color, "yellow") {
        Some("\x1b[43m")
    } else if str_eq(color, "blue") {
        Some("\x1b[44m")
    } else if str_eq(color, "magenta") {
        Some("\x1b[45m")
    } else if str_eq(color, "cyan") {
        Some("\x1b[46m")
    } else if str_eq(color, "white") {
        Some("\x1b[47m")
    } else {
        None
    }
}

/// Looks an escape sequence up by category and key.
fn escseq_str(cat: &str, key: &str) -> (r: Option<&'static str>)
    ensures
        match escseq_of(cat@, key@) {
            Some(seq) => r matches Some(s) && s@ == seq,
            None => r is None,
        },
{
    if str_eq(cat, "erase") {
        if str_eq(key, "screen") {
            Some("\x1b[2J")
        } else {
            None
        }
    } else if str_eq(cat, "style") {
        if str_eq(key, "bold") {
            Some("\x1b[1m")
        } else if str_eq(key, "dim") {
            Some("\x1b[2m")
        } else if str_eq(key, "italic") {
            Some("\x1b[3m")
        } else if str_eq(key, "underline") {
            Some("\x1b[4m")
        } else if str_eq(key, "strikethrough") {
            Some("\x1b[9m")
        } else {
            None
        }
    } else if str_eq(cat, "reset") {
        if str_eq(key, "cursor") {
            Some("\x1b[H")
        } else if str_eq(key, "bold/dim") {
            Some("\x1b[22m")
        } else if str_eq(key, "italic") {
            Some("\x1b[23m")
        } else if str_eq(key, "underline") {
            Some("\x1b[24m")
        } else if str_eq(key, "strikethrough") {
            Some("\x1b[29m")
        } else if str_eq(key, "foreground") {
            Some("\x1b[39m")
        } else if str_eq(key, "background") {
            Some("\x1b[49m")
        } else if str_eq(key, "all") {
            Some("\x1b[0m")
        } else {
            None
        }
    } else if str_eq(cat, "foreground") {
        fg_code_str(key)
    } else if str_eq(cat, "background") {
        bg_code_str(key)
    } else {
        None
    }
}

/// A piece of terminal text: the raw characters, escape sequences
/// included, together with the count of visible characters among them.
/// Alignment operations pad to visible width, so styled and plain text
/// line up.
#[derive(Debug)]
pub struct TermString {
    data: String,
    visible: usize,
}

impl View for TermString {
    type V = Seq<char>;

    closed spec fn view(&self) -> Seq<char> {
        self.data@
    }
}

impl TermString {
    /// How many of the characters are visible.
    pub closed spec fn spec_visible(&self) -> int {
        self.visible as int
    }

    /// The visible characters never outnumber all characters.
    pub closed spec fn wf(&self) -> bool {
        self.visible <= self.data@.len()
    }

    /// Wraps plain text, all of whose characters are visible.
    pub fn wrap(seq: &str) -> (r: TermString)
        ensures
            r.wf(),
            r@ == seq@,
            r.spec_visible() == seq@.len(),
    {
        let visible: usize = seq.unicode_len();
        let data: String = seq.to_owned();
        TermString { data, visible }
    }

    /// Wraps the escape sequence filed in the table under the given
    /// category and key, none of whose characters is visible; an unknown
    /// pair yields nothing.
    pub fn from_escseq(cat: &str, key: &str) -> (r: Option<TermString>)
        ensures
            match escseq_of(cat@, key@) {
                Some(seq) => r matches Some(t) && t.wf() && t@ == seq && t.spec_visible() == 0,
                None => r is None,
            },
    {
        match escseq_str(cat, key) {
            Some(seq) => {
                let data: String = seq.to_owned();
                Some(TermString { data, visible: 0 })
            },
            None => None,
        }
    }

    /// Surrenders the raw characters, escape sequences included.
    pub fn into_string(self) -> (s: String)
        ensures
            s@ == self@,
    {
        self.data
    }

    /// The count of visible characters: what the text occupies on screen.
    pub fn len(&self) -> (r: usize)
        ensures
            r == self.spec_visible(),
    {
        self.visible
    }

    /// Appends another piece of terminal text; the visible characters of
    /// both remain visible.
    pub fn concat_tstr(self, other: TermString) -> (r: TermString)
        requires
            self.wf(),
            other.wf(),
            self.spec_visible() + other.spec_visible() <= usize::MAX,
        ensures
            r.wf(),
            r@ == self@ + other@,
            r.spec_visible() == self.spec_visible() + other.spec_visible(),
    {
        let mut data: String = self.data;
        data.append(other.data.as_str());
        let visible: usize = self.visible + other.visible;
        TermString { data, visible }
    }

    /// Centers the visible text in the given width: the shortfall is split
    /// into spaces on the left (rounded down) and on the right. Text at
    /// least as wide as requested is unchanged.
    pub fn center(self, width: usize) -> (r: TermString)
        requires
            self.wf(),
        ensures
            r.wf(),
            width <= self.spec_visible() ==> r@ == self@ && r.spec_visible()
                == self.spec_visible(),
            width > self.spec_visible() ==> {
                let shortfall = width - self.spec_visible();
                r@ == char_repeat(' ', (shortfall / 2) as nat) + self@ + char_repeat(
                    ' ',
                    (shortfall - shortfall / 2) as nat,
                ) && r.spec_visible() == width
            },
    {
        if width <= self.visible {
            return self;
        }
        let shortfall: usize = width - self.visible;
        let left: usize = shortfall / 2;
        let right: usize = shortfall - left;
        let mut data: String = crate::text::spaces(left);
        data.append(self.data.as_str());
        let pad_right: String = crate::text::spaces(right);
        data.append(pad_right.as_str());
        TermString { data, visible: width }
    }

    /// Left-justifies: pads the right with spaces up to the given visible
    /// width. Text at least as wide as requested is unchanged.
    pub fn ljust(self, width: usize) -> (r: TermString)
        requires
            self.wf(),
        ensures
            r.wf(),
            width <= self.spec_visible() ==> r@ == self@ && r.spec_visible()
                == self.spec_visible(),
            width > self.spec_visible() ==> r@ == self@ + char_repeat(
                ' ',
                (width - self.spec_visible()) as nat,
            ) && r.spec_visible() == width,
    {
        if width <= self.visible {
            return self;
        }
        let pad: String = crate::text::spaces(width - self.visible);
        let mut data: String = self.data;
        data.append(pad.as_str());
        TermString { data, visible: width }
    }

    /// Right-justifies: pads the left with spaces up to the given visible
    /// width. Text at least as wide as requested is unchanged.
    pub fn rjust(self, width: usize) -> (r: TermString)
        requires
            self.wf(),
        ensures
            r.wf(),
            width <= self.spec_visible() ==> r@ == self@ && r.spec_visible()
                == self.spec_visible(),
            width > self.spec_visible() ==> r@ == char_repeat(
                ' ',
                (width - self.spec_visible()) as nat,
            ) + self@ && r.spec_visible() == width,
    {
        if width <= self.visible {
            return self;
        }
        let mut data: String = crate::text::spaces(width - self.visible);
        data.append(self.data.as_str());
        TermString { data, visible: width }
    }

    /// Styles the text bold, leaving its visible width unchanged.
    pub fn set_bold(self) -> (r: TermString)
        requires
            self.wf(),
        ensures
            r.wf(),
            r@ == "\x1b[1m"@ + self@ + "\x1b[22m"@,
            r.spec_visible() == self.spec_visible(),
    {
        self.enclose("\x1b[1m", "\x1b[22m")
    }

    /// Styles the text dim, leaving its visible width unchanged.
    pub fn set_dim(self) -> (r: TermString)
        requires
            self.wf(),
        ensures
            r.wf(),
            r@ == "\x1b[2m"@ + self@ + "\x1b[22m"@,
            r.spec_visible() == self.spec_visible(),
    {
        self.enclose("\x1b[2m", "\x1b[22m")
    }

    /// Styles the text bold and dim at once, leaving its visible width
    /// unchanged.
    pub fn set_bold_dim(self) -> (r: TermString)
        requires
            self.wf(),
        ensures
            r.wf(),
            r@ == "\x1b[1m\x1b[2m"@ + self@ + "\x1b[22m"@,
            r.spec_visible() == self.spec_visible(),
    {
        self.enclose("\x1b[1m\x1b[2m", "\x1b[22m")
    }

    /// Styles the text italic, leaving its visible width unchanged.
    pub fn set_italic(self) -> (r: TermString)
        requires
            self.wf(),
        ensures
            r.wf(),
            r@ == "\x1b[3m"@ + self@ + "\x1b[23m"@,
            r.spec_visible() == self.spec_visible(),
    {
        self.enclose("\x1b[3m", "\x1b[23m")
    }

    /// Underlines the text, leaving its visible width unchanged.
    pub fn set_underline(self) -> (r: TermString)
        requires
            self.wf(),
        ensures
            r.wf(),
            r@ == "\x1b[4m"@ + self@ + "\x1b[24m"@,
            r.spec_visible() == self.spec_visible(),
    {
        self.enclose("\x1b[4m", "\x1b[24m")
    }

    /// Strikes the text through, leaving its visible width unchanged.
    pub fn set_strikethrough(self) -> (r: TermString)
        requires
            self.wf(),
        ensures
            r.wf(),
            r@ == "\x1b[9m"@ + self@ + "\x1b[29m"@,
            r.spec_visible() == self.spec_visible(),
    {
        self.enclose("\x1b[9m", "\x1b[29m")
    }

    /// Paints the text in the named foreground color, leaving its visible
    /// width unchanged; an unknown color name is rejected.
    pub fn set_color(self, color: &str) -> (r: Result<TermString, &'static str>)
        requires
            self.wf(),
        ensures
            match fg_code(color@) {
                Some(code) => r matches Ok(t) && t.wf() && t@ == code + self@ + "\x1b[39m"@
                    && t.spec_visible() == self.spec_visible(),
                None => r matches Err(m) && m@ == "invalid color"@,
            },
    {
        match fg_code_str(color) {
            Some(code) => Ok(self.enclose(code, "\x1b[39m")),
            None => Err("invalid color"),
        }
    }

    /// Paints the text's background in the named color, leaving its
    /// visible width unchanged; an unknown color name is rejected.
    pub fn set_color_bg(self, color: &str) -> (r: Result<TermString, &'static str>)
        requires
            self.wf(),
        ensures
            match bg_code(color@) {
                Some(code) => r matches Ok(t) && t.wf() && t@ == code + self@ + "\x1b[49m"@
                    && t.spec_visible() == self.spec_visible(),
                None => r matches Err(m) && m@ == "invalid color"@,
            },
    {
        match bg_code_str(color) {
            Some(code) => Ok(self.enclose(code, "\x1b[49m")),
            None => Err("invalid color"),
        }
    }

    /// Encloses the text between two escape sequences, which add no
    /// visible characters.
    fn enclose(self, before: &str, after: &str) -> (r: TermString)
        requires
            self.wf(),
        ensures
            r.wf(),
            r@ == before@ + self@ + after@,
            r.spec_visible() == self.spec_visible(),
    {
        let mut data: String = before.to_owned();
        data.append(self.data.as_str());
        data.append(after);
        TermString { data, visible: self.visible }
    }
}

} // verus!

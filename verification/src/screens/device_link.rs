//! Device linking: a link token from another device is typed or pasted here.

use crate::screens::layout::{
    Area, at_most, cells, centre, centred_at, centred_line, cut, text_line,
};
use crate::text::{join, opt_text};
use vstd::prelude::*;
use vstd::utf8::encode_utf8;

verus! {

/// A token has at most this many bytes.
pub const TOKEN_CAP: usize = 64;

pub const TITLE: &'static str = " Link existing account ";

pub const HINT: &'static str = "Enter=confirm   Esc=back   q=quit";

/// The rows that the form takes, the gaps included.
pub const FORM_ROWS: u16 = 10;

/// The token field is this wide, where there is room.
pub const FIELD_WIDTH: u16 = 50;

pub struct DeviceLinkScreen {
    pub token: String,
    pub status: Option<String>,
    pub is_error: bool,
}

#[verifier::ext_equal]
pub struct DeviceLinkView {
    pub token: Seq<char>,
    pub status: Option<Seq<char>>,
    pub is_error: bool,
}

impl View for DeviceLinkScreen {
    type V = DeviceLinkView;

    open spec fn view(&self) -> DeviceLinkView {
        DeviceLinkView {
            token: self.token@,
            status: opt_text(self.status),
            is_error: self.is_error,
        }
    }
}

/// The empty form.
pub open spec fn blank_link_form() -> DeviceLinkView {
    DeviceLinkView {
        token: Seq::empty(),
        status: Some("Paste or type the link token shown on your other device"@),
        is_error: false,
    }
}

/// One more character, while there is room.
pub open spec fn typed(v: DeviceLinkView, c: char) -> DeviceLinkView {
    if encode_utf8(v.token).len() < TOKEN_CAP {
        DeviceLinkView { token: v.token.push(c), ..v }
    } else {
        v
    }
}

/// One character less, while there is one.
pub open spec fn erased(v: DeviceLinkView) -> DeviceLinkView {
    if v.token.len() > 0 {
        DeviceLinkView { token: v.token.drop_last(), ..v }
    } else {
        v
    }
}

/// Where the parts of the form stand, and what the token field shows.
pub struct LinkLayout<T = String> {
    pub title: Area,
    pub field: Area,
    pub field_text: T,
    /// There is none without a status.
    pub status: Option<Area>,
    pub hint: Area,
}

impl View for LinkLayout {
    type V = LinkLayout<Seq<char>>;

    open spec fn view(&self) -> LinkLayout<Seq<char>> {
        LinkLayout {
            title: self.title,
            field: self.field,
            field_text: self.field_text@,
            status: self.status,
            hint: self.hint,
        }
    }
}

pub open spec fn form_top(area: Area) -> int {
    centre(area.y, area.height, FORM_ROWS)
}

/// The hint follows the status, or stands in its place.
pub open spec fn hint_row(v: DeviceLinkView, area: Area) -> int {
    form_top(area) + if v.status is Some {
        8int
    } else {
        6int
    }
}

/// The token field leaves a margin of two cells on either side.
pub open spec fn field_width(area: Area) -> u16 {
    at_most(
        FIELD_WIDTH,
        if area.width < 4 {
            0
        } else {
            (area.width - 4) as u16
        },
    )
}

/// Every part of the form has coordinates.
pub open spec fn form_fits(v: DeviceLinkView, area: Area) -> bool {
    &&& hint_row(v, area) <= u16::MAX
    &&& centre(area.x, area.width, cells(TITLE@)) <= u16::MAX
    &&& centre(area.x, area.width, field_width(area)) <= u16::MAX
    &&& centre(area.x, area.width, cells(HINT@)) <= u16::MAX
    &&& v.status matches Some(text) ==> centre(area.x, area.width, cells(text)) <= u16::MAX
}

pub open spec fn form_layout(v: DeviceLinkView, area: Area) -> LinkLayout<Seq<char>> {
    let top = form_top(area);
    LinkLayout {
        title: centred_line(area, TITLE@, top),
        field: Area {
            x: centre(area.x, area.width, field_width(area)) as u16,
            y: (top + 2) as u16,
            width: field_width(area),
            height: 3,
        },
        field_text: v.token + "_"@,
        status: match v.status {
            Some(text) => Some(centred_line(area, text, top + 6)),
            None => None,
        },
        hint: centred_line(area, HINT@, hint_row(v, area)),
    }
}

impl DeviceLinkScreen {
    pub fn new() -> (r: Self)
        ensures
            r@ == blank_link_form(),
    {
        DeviceLinkScreen {
            token: String::new(),
            status: Some("Paste or type the link token shown on your other device".to_string()),
            is_error: false,
        }
    }

    pub fn push_char(&mut self, c: char)
        ensures
            final(self)@ == typed(old(self)@, c),
    {
        if self.token.as_str().as_bytes().len() < TOKEN_CAP {
            self.token.push(c);
        }
    }

    pub fn pop_char(&mut self)
        ensures
            final(self)@ == erased(old(self)@),
    {
        let _ = self.token.pop();
    }

    pub fn set_status(&mut self, msg: &str, error: bool)
        ensures
            final(self)@ == (DeviceLinkView {
                status: Some(msg@),
                is_error: error,
                ..old(self)@
            }),
    {
        self.status = Some(msg.to_string());
        self.is_error = error;
    }

    pub fn clear_status(&mut self)
        ensures
            final(self)@ == (DeviceLinkView { status: None, is_error: false, ..old(self)@ }),
    {
        self.status = None;
        self.is_error = false;
    }

    /// The form in an area of the terminal.
    pub fn layout(&self, area: Area) -> (r: LinkLayout)
        requires
            form_fits(self@, area),
        ensures
            r@ == form_layout(self@, area),
    {
        let top: u16 = centred_at(area.y, area.height, FORM_ROWS);
        let room: u16 = if area.width < 4 {
            0
        } else {
            area.width - 4
        };
        let width: u16 = cut(FIELD_WIDTH, room);
        let (status, hint_at): (Option<Area>, u16) = match &self.status {
            Some(text) => (Some(text_line(area, text.as_str(), top + 6)), top + 8),
            None => (None, top + 6),
        };
        LinkLayout {
            title: text_line(area, TITLE, top),
            field: Area {
                x: centred_at(area.x, area.width, width),
                y: top + 2,
                width,
                height: 3,
            },
            field_text: join(self.token.as_str(), "_"),
            status,
            hint: text_line(area, HINT, hint_at),
        }
    }
}

/// Erasing undoes typing, unless the form was full.
pub proof fn law_erasing_undoes_typing(v: DeviceLinkView, c: char)
    requires
        encode_utf8(v.token).len() < TOKEN_CAP,
    ensures
        erased(typed(v, c)) == v,
{
    assert(erased(typed(v, c)) =~= v) by {
        assert(v.token.push(c).drop_last() =~= v.token);
    }
}

/// One character adds at most four bytes.
proof fn lemma_one_more(s: Seq<char>, c: char)
    ensures
        encode_utf8(s.push(c)).len() <= encode_utf8(s).len() + 4,
    decreases s.len(),
{
    reveal_with_fuel(encode_utf8, 2);
    if s.len() == 0 {
        assert(s.push(c).drop_first() =~= Seq::empty());
    } else {
        assert(s.push(c).drop_first() =~= s.drop_first().push(c));
        lemma_one_more(s.drop_first(), c);
    }
}

/// A token never outgrows its cap by more than the character that filled it, and a full one
/// stays as it is.
pub proof fn law_token_is_bounded(v: DeviceLinkView, c: char)
    ensures
        encode_utf8(v.token).len() < TOKEN_CAP ==> encode_utf8(typed(v, c).token).len()
            < TOKEN_CAP + 4,
        encode_utf8(v.token).len() >= TOKEN_CAP ==> typed(v, c) == v,
{
    lemma_one_more(v.token, c);
}

/// The parts of the form stand one below the other, and never overlap.
pub proof fn law_rows_never_overlap(v: DeviceLinkView, area: Area)
    requires
        form_fits(v, area),
    ensures
        ({
            let l = form_layout(v, area);
            &&& l.title.y + l.title.height <= l.field.y
            &&& l.field.y + l.field.height <= l.hint.y
            &&& l.status matches Some(s) ==> l.field.y + l.field.height <= s.y && s.y + s.height
                <= l.hint.y
        }),
{
}

} // verus!

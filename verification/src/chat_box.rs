//! The rows of the chat view: a date line whenever the day changes, one
//! row per shown message with its time, author and wrapped text, a line of
//! reactions and the marker after the last read message.
use vstd::prelude::*;

use crate::config::{colored, Config, Style};
use crate::data::MessageParameter;
use crate::message::NCMessage;
use crate::room::NCRoom;
use crate::message::reaction_texts;
use crate::text::{join, replace_all, replaced, split_at_newlines, split_lines, text_eq, texts};
use crate::time_format::{
    earliest_date_rendering, earliest_date_with_pattern, is_literal_pattern, timestamp_in_range,
    today_with_pattern,
};

verus! {

/// The width of the name column.
pub const NAME_WIDTH: u16 = 20;

/// The width of the time column.
pub const TIME_WIDTH: u16 = 5;

/// The lines `textwrap::wrap` makes of `text` at `width` columns with its
/// default options (words longer than a line are broken).
pub uninterp spec fn wrapped_lines(text: Seq<char>, width: usize) -> Seq<Seq<char>>;

/// Calls `textwrap::wrap(text, textwrap::Options::new(width))` and keeps
/// each line as an owned string. The lines depend on the text and the width
/// alone and are named `wrapped_lines`.
#[verifier::external_body]
fn wrap_text(text: &str, width: usize) -> (r: Vec<String>)
    ensures
        texts(r@) == wrapped_lines(text@, width),
{
    textwrap::wrap(text, textwrap::Options::new(width)).into_iter().map(|line| line.into_owned()).collect()
}

/// What a row of the chat view shows.
#[derive(Debug, Clone, Copy, PartialEq, Eq, Structural)]
pub enum RowKind {
    /// The day of the messages below, emphasised.
    Date,
    /// A message: time, author and text.
    Message,
    /// The reactions to the message above.
    Reactions,
    /// The marker after the last read message, emphasised.
    UnreadMarker,
}

/// A row of the chat view: its kind, the time column, the lines of the name
/// column, the lines of the message column and its height in lines.
#[derive(Debug)]
pub struct ChatRow {
    pub kind: RowKind,
    pub time: String,
    pub name: Vec<String>,
    pub message: Vec<String>,
    pub height: usize,
}

/// The contents of a row.
pub struct RowView {
    pub kind: RowKind,
    pub time: Seq<char>,
    pub name: Seq<Seq<char>>,
    pub message: Seq<Seq<char>>,
    pub height: nat,
}

impl View for ChatRow {
    type V = RowView;

    open spec fn view(&self) -> RowView {
        RowView {
            kind: self.kind,
            time: self.time@,
            name: texts(self.name@),
            message: texts(self.message@),
            height: self.height as nat,
        }
    }
}

/// The contents of a list of rows.
pub open spec fn rows_view(rows: Seq<ChatRow>) -> Seq<RowView> {
    rows.map_values(|r: ChatRow| r@)
}

/// A message is shown unless it is a reaction, an edit note or a deleted
/// comment.
pub open spec fn is_shown(m: NCMessage) -> bool {
    !m.spec_is_reaction() && !m.spec_is_edit_note() && !m.spec_is_comment_deleted()
}

/// The text with each parameter's key replaced by the parameter's name, the
/// parameters taken in order.
pub open spec fn with_params(text: Seq<char>, params: Seq<MessageParameter>) -> Seq<char>
    decreases params.len(),
{
    if params.len() == 0 {
        text
    } else {
        with_params(
            replaced(text, params[0].key@, params[0].value.name@),
            params.drop_first(),
        )
    }
}

/// The lines of all pieces, each wrapped at `width`, in order.
pub open spec fn wrap_all(pieces: Seq<Seq<char>>, width: usize) -> Seq<Seq<char>>
    decreases pieces.len(),
{
    if pieces.len() == 0 {
        Seq::empty()
    } else {
        wrap_all(pieces.drop_last(), width) + wrapped_lines(pieces.last(), width)
    }
}

/// The lines of a message's text at `width` columns: its parameters filled
/// in, split at line feeds, each piece wrapped.
pub open spec fn message_lines(m: NCMessage, width: u16) -> Seq<Seq<char>> {
    wrap_all(split_lines(with_params(m.0.message@, m.0.messageParameters@)), width as usize)
}

/// A row with one line of text in the message column.
pub open spec fn text_row(kind: RowKind, text: Seq<char>) -> RowView {
    RowView { kind, time: Seq::empty(), name: Seq::empty(), message: seq![text], height: 1 }
}

/// The date row: the date, with "Today! " before it when it is today's.
pub open spec fn date_row(date: Seq<char>, today: Seq<char>) -> RowView {
    text_row(RowKind::Date, if date == today { "Today! "@ + date } else { date })
}

/// The row of a message: its time, its author wrapped at the name column's
/// width, its text wrapped at `width`, as high as the longer of the two.
pub open spec fn message_row(m: NCMessage, time: Seq<char>, width: u16) -> RowView {
    let name = wrapped_lines(m.spec_name(), NAME_WIDTH as usize);
    let message = message_lines(m, width);
    RowView {
        kind: RowKind::Message,
        time,
        name,
        message,
        height: if message.len() > name.len() { message.len() } else { name.len() },
    }
}

/// The marker row.
pub open spec fn marker_row() -> RowView {
    text_row(RowKind::UnreadMarker, "+++ LAST READ +++"@)
}

/// The rows after a message: its reactions, if any, then the marker if
/// it is the last read message (`marker` holds that message's id when the
/// conversation has unread messages).
pub open spec fn trailer_rows(m: NCMessage, marker: Option<i32>) -> Seq<RowView> {
    (if m.0.reactions@.len() > 0 {
        seq![text_row(RowKind::Reactions, join(reaction_texts(m.0.reactions@), ", "@))]
    } else {
        seq![]
    })
        + (if marker == Some(m.0.id) { seq![marker_row()] } else { seq![] })
}

/// The rows of the chat view for the messages `ms`, given for each message
/// its rendered date, today's date and its rendered time, `last` being the
/// date of the row shown before.
pub open spec fn chat_rows(
    ms: Seq<NCMessage>,
    dates: Seq<Seq<char>>,
    todays: Seq<Seq<char>>,
    times: Seq<Seq<char>>,
    last: Seq<char>,
    width: u16,
    marker: Option<i32>,
) -> Seq<RowView>
    decreases ms.len(),
{
    if ms.len() == 0 {
        Seq::empty()
    } else {
        let rest = chat_rows(
            ms.drop_first(),
            dates.drop_first(),
            todays.drop_first(),
            times.drop_first(),
            if is_shown(ms[0]) { dates[0] } else { last },
            width,
            marker,
        );
        if !is_shown(ms[0]) {
            rest
        } else {
            (if dates[0] != last { seq![date_row(dates[0], todays[0])] } else { seq![] }) + seq![
                message_row(ms[0], times[0], width),
            ] + trailer_rows(ms[0], marker) + rest
        }
    }
}

/// The message whose id the marker follows: the last read one, when the
/// conversation has unread messages.
pub open spec fn unread_marker(room: NCRoom) -> Option<i32> {
    if room.room_data.unreadMessages > 0 {
        Some(room.room_data.lastReadMessage)
    } else {
        None
    }
}

/// What a rebuild of the rows of `room` with the date pattern `date_format`
/// and the message column `width` leaves: success exactly when `chrono`
/// renders the pattern, no rows on failure, and on success the rows of
/// `chat_rows` for dates, today's dates and times rendered in the local time
/// zone (each shown message's time as five characters with a colon in the
/// middle), the first date compared against the earliest date. A date
/// pattern without `%` renders every date, today's and the earliest as
/// itself.
pub open spec fn rows_rebuilt(
    date_format: Seq<char>,
    width: u16,
    room: NCRoom,
    rows: Seq<RowView>,
    ok: bool,
) -> bool {
    &&& ok == (earliest_date_rendering(date_format) is Some)
    &&& !ok ==> rows.len() == 0
    &&& ok ==> exists|
        start: Seq<char>,
        dates: Seq<Seq<char>>,
        todays: Seq<Seq<char>>,
        times: Seq<Seq<char>>,
    |
        {
            &&& earliest_date_rendering(date_format) == Some(start)
            &&& dates.len() == room.messages@.len()
            &&& todays.len() == room.messages@.len()
            &&& times.len() == room.messages@.len()
            &&& forall|k: int|
                0 <= k < room.messages@.len() && is_shown(#[trigger] room.messages@[k])
                    ==> times[k].len() == 5 && times[k][2] == ':'
            &&& is_literal_pattern(date_format) ==> start == date_format && forall|k: int|
                0 <= k < room.messages@.len() && is_shown(#[trigger] room.messages@[k])
                    ==> dates[k] == date_format && todays[k] == date_format
            &&& rows == chat_rows(
                room.messages@,
                dates,
                todays,
                times,
                start,
                width,
                unread_marker(room),
            )
        }
}

/// The selected row after moving up from row `i` among `len` rows.
pub open spec fn index_after_up(i: int, len: int) -> int {
    if i == 0 {
        0
    } else if i - 1 <= len - 1 {
        i - 1
    } else {
        len - 1
    }
}

/// The selected row after moving down from row `i` among `len` rows.
pub open spec fn index_after_down(i: int, len: int) -> int {
    if i + 1 <= len - 1 {
        i + 1
    } else {
        len - 1
    }
}

/// The chat view.
#[derive(Debug)]
pub struct ChatBox {
    pub rows: Vec<ChatRow>,
    pub current_index: usize,
    /// The width of the message column.
    pub width: u16,
    pub default_style: Style,
    pub default_highlight_style: Style,
    /// The style of date rows and of the marker: bold.
    pub unread_message_style: Style,
    pub table_header_style: Style,
    /// The `strftime` pattern of date rows.
    pub date_format: String,
}

fn text_row_of(kind: RowKind, text: String) -> (r: ChatRow)
    ensures
        r@ == text_row(kind, text@),
{
    let mut message: Vec<String> = Vec::new();
    message.push(text);
    let r = ChatRow { kind, time: String::new(), name: Vec::new(), message, height: 1 };
    assert(r@.message =~= seq![text@]);
    assert(r@.name =~= Seq::<Seq<char>>::empty());
    r
}

/// Appends the row of the message's reactions, if it has any.
fn insert_reaction_if_needed(rows: &mut Vec<ChatRow>, message_data: &NCMessage)
    ensures
        rows_view(final(rows)@) == rows_view(old(rows)@) + (if message_data.0.reactions@.len() > 0 {
            seq![text_row(RowKind::Reactions, join(reaction_texts(message_data.0.reactions@), ", "@))]
        } else {
            Seq::<RowView>::empty()
        }),
{
    let ghost before = rows@;
    if message_data.has_reactions() {
        let row = text_row_of(RowKind::Reactions, message_data.get_reactions_str());
        rows.push(row);
        assert(rows@ == before.push(row));
    }
    assert(rows_view(rows@) =~= rows_view(before) + (if message_data.0.reactions@.len() > 0 {
        seq![text_row(RowKind::Reactions, join(reaction_texts(message_data.0.reactions@), ", "@))]
    } else {
        Seq::<RowView>::empty()
    }));
}

/// Appends the marker after the message if it is the last read one
/// (`marker` holds that message's id when the conversation has unread
/// messages).
fn insert_unread_marker_if_needed(rows: &mut Vec<ChatRow>, marker: Option<i32>, message_data: &NCMessage)
    ensures
        rows_view(final(rows)@) == rows_view(old(rows)@) + (if marker == Some(message_data.0.id) {
            seq![marker_row()]
        } else {
            Seq::<RowView>::empty()
        }),
{
    let ghost before = rows@;
    let is_marker = match marker {
        Some(id) => id == message_data.get_id(),
        None => false,
    };
    if is_marker {
        proof {
            reveal_strlit("+++ LAST READ +++");
        }
        let row = text_row_of(RowKind::UnreadMarker, String::from_str("+++ LAST READ +++"));
        rows.push(row);
        assert(rows@ == before.push(row));
    }
    assert(rows_view(rows@) =~= rows_view(before) + (if marker == Some(message_data.0.id) {
        seq![marker_row()]
    } else {
        Seq::<RowView>::empty()
    }));
}

impl ChatBox {
    /// An empty chat view with the theme's styles and the configured date
    /// pattern; the message column is 10 wide.
    pub fn new(config: &Config) -> (r: ChatBox)
        ensures
            r.rows@.len() == 0,
            r.current_index == 0,
            r.width == 10,
            r.default_style == colored(config.theme.data.foreground, config.theme.data.background),
            r.default_highlight_style == colored(
                config.theme.data.foreground_highlight,
                config.theme.data.background_highlight,
            ),
            r.unread_message_style == (Style {
                bold: true,
                ..colored(
                    config.theme.data.foreground_unread_message,
                    config.theme.data.background_unread_message,
                )
            }),
            r.table_header_style == (Style {
                bold: true,
                ..colored(config.theme.data.table_header, config.theme.data.background)
            }),
            r.date_format@ == config.data.ui.date_format@,
    {
        ChatBox {
            rows: Vec::new(),
            current_index: 0,
            width: 10,
            default_style: config.theme.default_style(),
            default_highlight_style: config.theme.default_highlight_style(),
            unread_message_style: config.theme.unread_message_style().bold(),
            table_header_style: config.theme.table_header_style(),
            date_format: config.data.ui.date_format.clone(),
        }
    }

    /// The lines of a message's text in the message column.
    pub fn format_message(&self, message_data: &NCMessage) -> (r: Vec<String>)
        ensures
            texts(r@) == message_lines(*message_data, self.width),
    {
        let mut message_text = String::from_str(message_data.get_message());
        let params = &message_data.0.messageParameters;
        let n = params.len();
        let mut i: usize = 0;
        assert(params@.skip(0) =~= params@);
        while i < n
            invariant
                n == params@.len(),
                i <= n,
                with_params(message_text@, params@.skip(i as int)) == with_params(
                    message_data.0.message@,
                    params@,
                ),
            decreases n - i,
        {
            let p = &params[i];
            message_text = replace_all(message_text.as_str(), p.key.as_str(), p.value.name.as_str());
            assert(params@.skip(i as int).drop_first() =~= params@.skip(i + 1));
            i = i + 1;
        }
        assert(params@.skip(n as int).len() == 0);
        let pieces = split_at_newlines(message_text.as_str());
        let width = self.width as usize;
        let mut lines: Vec<String> = Vec::new();
        let m = pieces.len();
        let mut j: usize = 0;
        while j < m
            invariant
                m == pieces@.len(),
                j <= m,
                texts(lines@) == wrap_all(texts(pieces@).take(j as int), width),
            decreases m - j,
        {
            let mut wrapped = wrap_text(pieces[j].as_str(), width);
            let ghost before = lines@;
            let ghost added = wrapped@;
            lines.append(&mut wrapped);
            proof {
                let taken = texts(pieces@).take(j + 1);
                assert(taken.drop_last() =~= texts(pieces@).take(j as int));
                assert(taken.last() == pieces@[j as int]@);
                assert(texts(lines@) =~= texts(before) + texts(added));
            }
            j = j + 1;
        }
        assert(texts(pieces@).take(m as int) =~= texts(pieces@));
        lines
    }

    /// The rows for the messages `messages`, given for each message its
    /// rendered date, today's date and its rendered time (entries of
    /// messages that are not shown are not read), `start` being the date
    /// before the first message.
    pub fn build_rows(
        &self,
        messages: &Vec<NCMessage>,
        dates: &Vec<String>,
        todays: &Vec<String>,
        times: &Vec<String>,
        start: &str,
        marker: Option<i32>,
    ) -> (r: Vec<ChatRow>)
        requires
            dates@.len() == messages@.len(),
            todays@.len() == messages@.len(),
            times@.len() == messages@.len(),
        ensures
            rows_view(r@) == chat_rows(
                messages@,
                texts(dates@),
                texts(todays@),
                texts(times@),
                start@,
                self.width,
                marker,
            ),
    {
        let ghost total = chat_rows(
            messages@,
            texts(dates@),
            texts(todays@),
            texts(times@),
            start@,
            self.width,
            marker,
        );
        let mut rows: Vec<ChatRow> = Vec::new();
        let mut last = String::from_str(start);
        let n = messages.len();
        let mut i: usize = 0;
        assert(messages@.skip(0) =~= messages@);
        assert(texts(dates@).skip(0) =~= texts(dates@));
        assert(texts(todays@).skip(0) =~= texts(todays@));
        assert(texts(times@).skip(0) =~= texts(times@));
        assert(rows_view(rows@) =~= Seq::<RowView>::empty());
        while i < n
            invariant
                n == messages@.len(),
                dates@.len() == n,
                todays@.len() == n,
                times@.len() == n,
                i <= n,
                total == chat_rows(
                    messages@,
                    texts(dates@),
                    texts(todays@),
                    texts(times@),
                    start@,
                    self.width,
                    marker,
                ),
                rows_view(rows@) + chat_rows(
                    messages@.skip(i as int),
                    texts(dates@).skip(i as int),
                    texts(todays@).skip(i as int),
                    texts(times@).skip(i as int),
                    last@,
                    self.width,
                    marker,
                ) == total,
            decreases n - i,
        {
            let m = &messages[i];
            let ghost ms = messages@.skip(i as int);
            let ghost ds = texts(dates@).skip(i as int);
            let ghost tds = texts(todays@).skip(i as int);
            let ghost tms = texts(times@).skip(i as int);
            let ghost old_rows = rows_view(rows@);
            proof {
                assert(ms[0] == messages@[i as int]);
                assert(ds[0] == dates@[i as int]@);
                assert(tds[0] == todays@[i as int]@);
                assert(tms[0] == times@[i as int]@);
                assert(ms.drop_first() =~= messages@.skip(i + 1));
                assert(ds.drop_first() =~= texts(dates@).skip(i + 1));
                assert(tds.drop_first() =~= texts(todays@).skip(i + 1));
                assert(tms.drop_first() =~= texts(times@).skip(i + 1));
            }
            let shown = !m.is_reaction() && !m.is_edit_note() && !m.is_comment_deleted();
            if shown {
                let date = &dates[i];
                let ghost mut head: Seq<RowView> = Seq::empty();
                if !text_eq(date.as_str(), last.as_str()) {
                    let text = if text_eq(date.as_str(), todays[i].as_str()) {
                        proof {
                            reveal_strlit("Today! ");
                        }
                        let mut t = String::from_str("Today! ");
                        t.append(date.as_str());
                        t
                    } else {
                        date.clone()
                    };
                    let row = text_row_of(RowKind::Date, text);
                    proof {
                        head = seq![row@];
                    }
                    rows.push(row);
                }
                last = date.clone();
                let name = wrap_text(m.get_name(), NAME_WIDTH as usize);
                let message = self.format_message(m);
                let height = if message.len() > name.len() {
                    message.len()
                } else {
                    name.len()
                };
                let row = ChatRow {
                    kind: RowKind::Message,
                    time: times[i].clone(),
                    name,
                    message,
                    height,
                };
                assert(row@ == message_row(ms[0], tms[0], self.width));
                rows.push(row);
                let ghost with_message = rows_view(rows@);
                insert_reaction_if_needed(&mut rows, m);
                let ghost with_reactions = rows_view(rows@);
                insert_unread_marker_if_needed(&mut rows, marker, m);
                proof {
                    assert(trailer_rows(ms[0], marker) =~= (with_reactions.skip(
                        with_message.len() as int,
                    )) + rows_view(rows@).skip(with_reactions.len() as int));
                    assert(rows_view(rows@) =~= old_rows + head + seq![
                        message_row(ms[0], tms[0], self.width),
                    ] + trailer_rows(ms[0], marker));
                }
            } else {
                assert(rows_view(rows@) =~= old_rows);
            }
            i = i + 1;
        }
        proof {
            assert(messages@.skip(n as int).len() == 0);
            assert(rows_view(rows@) =~= total);
        }
        rows
    }

    /// Rebuilds the rows from the messages of `room`: dates, times and
    /// today's date are rendered in the local time zone with `chrono`, the
    /// first date row compared against the earliest representable date.
    /// `false`, with no rows, when `chrono` cannot render the date pattern.
    pub fn update_messages(&mut self, room: &NCRoom) -> (ok: bool)
        requires
            forall|k: int|
                0 <= k < room.messages@.len() && is_shown(#[trigger] room.messages@[k])
                    ==> timestamp_in_range(room.messages@[k].0.timestamp),
        ensures
            final(self).width == old(self).width,
            final(self).current_index == old(self).current_index,
            final(self).date_format == old(self).date_format,
            final(self).default_style == old(self).default_style,
            final(self).default_highlight_style == old(self).default_highlight_style,
            final(self).unread_message_style == old(self).unread_message_style,
            final(self).table_header_style == old(self).table_header_style,
            rows_rebuilt(old(self).date_format@, old(self).width, *room, rows_view(final(self).rows@), ok),
    {
        self.rows = Vec::new();
        let start = match earliest_date_with_pattern(self.date_format.as_str()) {
            Some(t) => t,
            None => return false,
        };
        let messages = &room.messages;
        let n = messages.len();
        let mut dates: Vec<String> = Vec::new();
        let mut todays: Vec<String> = Vec::new();
        let mut times: Vec<String> = Vec::new();
        let mut i: usize = 0;
        while i < n
            invariant
                n == messages@.len(),
                messages == room.messages,
                i <= n,
                dates@.len() == i,
                todays@.len() == i,
                times@.len() == i,
                self.rows@.len() == 0,
                earliest_date_rendering(self.date_format@) == Some(start@),
                self.width == old(self).width,
                self.current_index == old(self).current_index,
                self.date_format == old(self).date_format,
                self.default_style == old(self).default_style,
                self.default_highlight_style == old(self).default_highlight_style,
                self.unread_message_style == old(self).unread_message_style,
                self.table_header_style == old(self).table_header_style,
                forall|k: int|
                    0 <= k < n && is_shown(#[trigger] messages@[k]) ==> timestamp_in_range(
                        messages@[k].0.timestamp,
                    ),
                forall|k: int|
                    0 <= k < i && is_shown(#[trigger] messages@[k]) ==> times@[k]@.len() == 5
                        && times@[k]@[2] == ':',
                is_literal_pattern(self.date_format@) ==> start@ == self.date_format@,
                is_literal_pattern(self.date_format@) ==> forall|k: int|
                    0 <= k < i && is_shown(#[trigger] messages@[k]) ==> dates@[k]@
                        == self.date_format@ && todays@[k]@ == self.date_format@,
            decreases n - i,
        {
            let m = &messages[i];
            if !m.is_reaction() && !m.is_edit_note() && !m.is_comment_deleted() {
                let date = match m.get_date_str(self.date_format.as_str()) {
                    Some(d) => d,
                    None => return false,
                };
                let today = match today_with_pattern(self.date_format.as_str()) {
                    Some(t) => t,
                    None => return false,
                };
                dates.push(date);
                todays.push(today);
                times.push(m.get_time_str());
            } else {
                dates.push(String::new());
                todays.push(String::new());
                times.push(String::new());
            }
            i = i + 1;
        }
        let marker = if room.has_unread() {
            Some(room.get_last_read())
        } else {
            None
        };
        self.rows = self.build_rows(messages, &dates, &todays, &times, start.as_str(), marker);
        proof {
            let ts = texts(times@);
            assert(forall|k: int|
                0 <= k < room.messages@.len() && is_shown(#[trigger] room.messages@[k])
                    ==> ts[k].len() == 5 && ts[k][2] == ':');
            let ds = texts(dates@);
            let tds = texts(todays@);
            assert(is_literal_pattern(self.date_format@) ==> forall|k: int|
                0 <= k < room.messages@.len() && is_shown(#[trigger] room.messages@[k])
                    ==> ds[k] == self.date_format@ && tds[k] == self.date_format@);
        }
        true
    }

    /// Selects the last row (the first when there is none).
    pub fn select_last_message(&mut self)
        ensures
            final(self).current_index == (if old(self).rows@.len() == 0 {
                0
            } else {
                old(self).rows@.len() - 1
            }),
            final(self).rows == old(self).rows,
            final(self).width == old(self).width,
    {
        self.current_index = self.rows.len().saturating_sub(1);
    }

    /// Moves the selection one row up, staying on the first row and within
    /// the rows.
    pub fn select_up(&mut self)
        requires
            old(self).rows@.len() >= 1,
        ensures
            final(self).current_index == index_after_up(
                old(self).current_index as int,
                old(self).rows@.len() as int,
            ),
            final(self).rows == old(self).rows,
            final(self).width == old(self).width,
    {
        let up = self.current_index.saturating_sub(1);
        let last = self.rows.len() - 1;
        self.current_index = if up > last {
            last
        } else {
            up
        };
    }

    /// Moves the selection one row down, staying on the last row.
    pub fn select_down(&mut self)
        requires
            old(self).rows@.len() >= 1,
        ensures
            final(self).current_index == index_after_down(
                old(self).current_index as int,
                old(self).rows@.len() as int,
            ),
            final(self).rows == old(self).rows,
            final(self).width == old(self).width,
    {
        let down = self.current_index.saturating_add(1);
        let last = self.rows.len() - 1;
        self.current_index = if down > last {
            last
        } else {
            down
        };
    }

    /// Takes the width of the whole view: the message column gets what the
    /// time and name columns and two separators leave, at least 10; the rows
    /// are rebuilt when that changes. `false` when the rebuild fails as
    /// `update_messages` does.
    pub fn set_width_and_update_if_change(&mut self, width: u16, room: &NCRoom) -> (ok: bool)
        requires
            width >= TIME_WIDTH + 2 + NAME_WIDTH,
            forall|k: int|
                0 <= k < room.messages@.len() && is_shown(#[trigger] room.messages@[k])
                    ==> timestamp_in_range(room.messages@[k].0.timestamp),
        ensures
            final(self).width == (if width - 27 >= 10 {
                (width - 27) as u16
            } else {
                10u16
            }),
            final(self).width == old(self).width ==> ok && final(self).rows == old(self).rows,
            final(self).width != old(self).width ==> rows_rebuilt(
                old(self).date_format@,
                final(self).width,
                *room,
                rows_view(final(self).rows@),
                ok,
            ),
    {
        let rest = width - TIME_WIDTH - 2 - NAME_WIDTH;
        let new_width = if rest >= 10 {
            rest
        } else {
            10
        };
        if self.width != new_width {
            self.width = new_width;
            self.update_messages(room)
        } else {
            true
        }
    }

}

/// The number of message rows.
pub open spec fn message_row_count(rows: Seq<RowView>) -> nat
    decreases rows.len(),
{
    if rows.len() == 0 {
        0
    } else {
        message_row_count(rows.drop_last()) + if rows.last().kind == RowKind::Message {
            1nat
        } else {
            0nat
        }
    }
}

/// The number of shown messages.
pub open spec fn shown_count(ms: Seq<NCMessage>) -> nat
    decreases ms.len(),
{
    if ms.len() == 0 {
        0
    } else {
        (if is_shown(ms[0]) {
            1nat
        } else {
            0nat
        }) + shown_count(ms.drop_first())
    }
}

/// Message rows of two lists add up.
proof fn lemma_message_row_count_add(a: Seq<RowView>, b: Seq<RowView>)
    ensures
        message_row_count(a + b) == message_row_count(a) + message_row_count(b),
    decreases b.len(),
{
    if b.len() > 0 {
        lemma_message_row_count_add(a, b.drop_last());
        assert((a + b).drop_last() =~= a + b.drop_last());
    } else {
        assert(a + b =~= a);
    }
}

/// The chat view has exactly one message row for each shown message:
/// reactions, edit notes and deleted comments get none, and date, reaction
/// and marker rows are no message rows.
pub proof fn law_one_message_row_per_shown_message(
    ms: Seq<NCMessage>,
    dates: Seq<Seq<char>>,
    todays: Seq<Seq<char>>,
    times: Seq<Seq<char>>,
    last: Seq<char>,
    width: u16,
    marker: Option<i32>,
)
    requires
        dates.len() == ms.len(),
        todays.len() == ms.len(),
        times.len() == ms.len(),
    ensures
        message_row_count(chat_rows(ms, dates, todays, times, last, width, marker)) == shown_count(
            ms,
        ),
    decreases ms.len(),
{
    if ms.len() > 0 {
        let next = if is_shown(ms[0]) {
            dates[0]
        } else {
            last
        };
        law_one_message_row_per_shown_message(
            ms.drop_first(),
            dates.drop_first(),
            todays.drop_first(),
            times.drop_first(),
            next,
            width,
            marker,
        );
        let rest = chat_rows(
            ms.drop_first(),
            dates.drop_first(),
            todays.drop_first(),
            times.drop_first(),
            next,
            width,
            marker,
        );
        if is_shown(ms[0]) {
            let head: Seq<RowView> = if dates[0] != last {
                seq![date_row(dates[0], todays[0])]
            } else {
                seq![]
            };
            let row = seq![message_row(ms[0], times[0], width)];
            let trailer = trailer_rows(ms[0], marker);
            assert(message_row_count(head) == 0) by {
                if head.len() > 0 {
                    assert(head.drop_last() =~= Seq::<RowView>::empty());
                    assert(head.last().kind == RowKind::Date);
                    assert(message_row_count(Seq::<RowView>::empty()) == 0);
                }
            }
            assert(message_row_count(row) == 1) by {
                assert(row.drop_last() =~= Seq::<RowView>::empty());
                assert(row.last().kind == RowKind::Message);
                assert(message_row_count(Seq::<RowView>::empty()) == 0);
            }
            assert(message_row_count(trailer) == 0) by {
                let reactions: Seq<RowView> = if ms[0].0.reactions@.len() > 0 {
                    seq![text_row(RowKind::Reactions, join(reaction_texts(ms[0].0.reactions@), ", "@))]
                } else {
                    seq![]
                };
                let marks: Seq<RowView> = if marker == Some(ms[0].0.id) {
                    seq![marker_row()]
                } else {
                    seq![]
                };
                assert(trailer == reactions + marks);
                lemma_message_row_count_add(reactions, marks);
                assert(message_row_count(Seq::<RowView>::empty()) == 0);
                if reactions.len() > 0 {
                    assert(reactions.drop_last() =~= Seq::<RowView>::empty());
                    assert(reactions.last().kind == RowKind::Reactions);
                }
                if marks.len() > 0 {
                    assert(marks.drop_last() =~= Seq::<RowView>::empty());
                    assert(marks.last().kind == RowKind::UnreadMarker);
                }
            }
            lemma_message_row_count_add(head, row);
            lemma_message_row_count_add(head + row, trailer);
            lemma_message_row_count_add(head + row + trailer, rest);
        }
    }
}

/// Moving the selection up from a row that is not the first, then down,
/// comes back to it; and down from a row that is not the last, then up.
pub proof fn law_select_up_then_down(i: int, len: int)
    requires
        0 <= i < len,
    ensures
        i > 0 ==> index_after_down(index_after_up(i, len), len) == i,
        i < len - 1 ==> index_after_up(index_after_down(i, len), len) == i,
{
}

/// Two lists of rows that differ at most in their time columns.
pub open spec fn same_but_times(a: Seq<RowView>, b: Seq<RowView>) -> bool {
    &&& a.len() == b.len()
    &&& forall|i: int|
        0 <= i < a.len() ==> (#[trigger] a[i]).kind == b[i].kind && a[i].name == b[i].name
            && a[i].message == b[i].message && a[i].height == b[i].height
}

proof fn lemma_same_but_times_concat(
    a1: Seq<RowView>,
    a2: Seq<RowView>,
    b1: Seq<RowView>,
    b2: Seq<RowView>,
)
    requires
        same_but_times(a1, b1),
        same_but_times(a2, b2),
    ensures
        same_but_times(a1 + a2, b1 + b2),
{
    let a = a1 + a2;
    let b = b1 + b2;
    assert forall|i: int| 0 <= i < a.len() implies (#[trigger] a[i]).kind == b[i].kind
        && a[i].name == b[i].name && a[i].message == b[i].message && a[i].height == b[i].height by {
        if i < a1.len() {
            assert(a[i] == a1[i] && b[i] == b1[i]);
        } else {
            assert(a[i] == a2[i - a1.len()] && b[i] == b2[i - a1.len()]);
        }
    }
}

/// Rows built from the same dates and today's dates of the shown messages
/// differ at most in their time columns.
proof fn lemma_chat_rows_same_but_times(
    ms: Seq<NCMessage>,
    d1: Seq<Seq<char>>,
    t1: Seq<Seq<char>>,
    tm1: Seq<Seq<char>>,
    d2: Seq<Seq<char>>,
    t2: Seq<Seq<char>>,
    tm2: Seq<Seq<char>>,
    last: Seq<char>,
    width: u16,
    marker: Option<i32>,
)
    requires
        d1.len() == ms.len() && t1.len() == ms.len() && tm1.len() == ms.len(),
        d2.len() == ms.len() && t2.len() == ms.len() && tm2.len() == ms.len(),
        forall|k: int|
            0 <= k < ms.len() && is_shown(#[trigger] ms[k]) ==> d1[k] == d2[k] && t1[k] == t2[k],
    ensures
        same_but_times(
            chat_rows(ms, d1, t1, tm1, last, width, marker),
            chat_rows(ms, d2, t2, tm2, last, width, marker),
        ),
    decreases ms.len(),
{
    if ms.len() > 0 {
        let next = if is_shown(ms[0]) {
            d1[0]
        } else {
            last
        };
        assert forall|k: int|
            0 <= k < ms.drop_first().len() && is_shown(#[trigger] ms.drop_first()[k]) implies d1.drop_first()[k]
            == d2.drop_first()[k] && t1.drop_first()[k] == t2.drop_first()[k] by {
            assert(ms.drop_first()[k] == ms[k + 1]);
        }
        lemma_chat_rows_same_but_times(
            ms.drop_first(),
            d1.drop_first(),
            t1.drop_first(),
            tm1.drop_first(),
            d2.drop_first(),
            t2.drop_first(),
            tm2.drop_first(),
            next,
            width,
            marker,
        );
        let rest1 = chat_rows(
            ms.drop_first(),
            d1.drop_first(),
            t1.drop_first(),
            tm1.drop_first(),
            next,
            width,
            marker,
        );
        let rest2 = chat_rows(
            ms.drop_first(),
            d2.drop_first(),
            t2.drop_first(),
            tm2.drop_first(),
            next,
            width,
            marker,
        );
        if is_shown(ms[0]) {
            assert(d1[0] == d2[0] && t1[0] == t2[0]);
            let head: Seq<RowView> = if d1[0] != last {
                seq![date_row(d1[0], t1[0])]
            } else {
                seq![]
            };
            let row1 = seq![message_row(ms[0], tm1[0], width)];
            let row2 = seq![message_row(ms[0], tm2[0], width)];
            let trailer = trailer_rows(ms[0], marker);
            assert(same_but_times(head, head));
            assert(same_but_times(row1, row2));
            assert(same_but_times(trailer, trailer));
            lemma_same_but_times_concat(head, row1, head, row2);
            lemma_same_but_times_concat(head + row1, trailer, head + row2, trailer);
            lemma_same_but_times_concat(head + row1 + trailer, rest1, head + row2 + trailer, rest2);
        }
    }
}

/// Rebuilding the rows of a conversation twice with the same date pattern
/// and width: both rebuilds succeed or both fail (with no rows), and with a
/// date pattern without `%` the two row lists differ at most in their time
/// columns, which the local time zone renders. The rows left by a rebuild do
/// not depend on the rows before it.
pub proof fn law_rebuild_twice(
    date_format: Seq<char>,
    width: u16,
    room: NCRoom,
    first: Seq<RowView>,
    first_ok: bool,
    second: Seq<RowView>,
    second_ok: bool,
)
    requires
        rows_rebuilt(date_format, width, room, first, first_ok),
        rows_rebuilt(date_format, width, room, second, second_ok),
    ensures
        first_ok == second_ok,
        !first_ok ==> first.len() == 0 && second.len() == 0,
        is_literal_pattern(date_format) ==> same_but_times(first, second),
{
    if first_ok && is_literal_pattern(date_format) {
        let ms = room.messages@;
        let (s1, d1, t1, tm1) = choose|
            start: Seq<char>,
            dates: Seq<Seq<char>>,
            todays: Seq<Seq<char>>,
            times: Seq<Seq<char>>,
        |
            {
                &&& earliest_date_rendering(date_format) == Some(start)
                &&& dates.len() == ms.len()
                &&& todays.len() == ms.len()
                &&& times.len() == ms.len()
                &&& forall|k: int|
                    0 <= k < ms.len() && is_shown(#[trigger] ms[k]) ==> times[k].len() == 5
                        && times[k][2] == ':'
                &&& is_literal_pattern(date_format) ==> start == date_format && forall|k: int|
                    0 <= k < ms.len() && is_shown(#[trigger] ms[k]) ==> dates[k] == date_format
                        && todays[k] == date_format
                &&& first == chat_rows(ms, dates, todays, times, start, width, unread_marker(room))
            };
        let (s2, d2, t2, tm2) = choose|
            start: Seq<char>,
            dates: Seq<Seq<char>>,
            todays: Seq<Seq<char>>,
            times: Seq<Seq<char>>,
        |
            {
                &&& earliest_date_rendering(date_format) == Some(start)
                &&& dates.len() == ms.len()
                &&& todays.len() == ms.len()
                &&& times.len() == ms.len()
                &&& forall|k: int|
                    0 <= k < ms.len() && is_shown(#[trigger] ms[k]) ==> times[k].len() == 5
                        && times[k][2] == ':'
                &&& is_literal_pattern(date_format) ==> start == date_format && forall|k: int|
                    0 <= k < ms.len() && is_shown(#[trigger] ms[k]) ==> dates[k] == date_format
                        && todays[k] == date_format
                &&& second == chat_rows(ms, dates, todays, times, start, width, unread_marker(room))
            };
        lemma_chat_rows_same_but_times(ms, d1, t1, tm1, d2, t2, tm2, s1, width, unread_marker(room));
    }
}

/// A message row is as high as the longer of its two wrapped columns: at
/// least as many lines as the wrapped author name and as the wrapped text
/// (parameters filled in, split at line feeds), and exactly one of the two,
/// so no line of either column is cut off; it shows the given time.
pub proof fn law_message_row_height(m: NCMessage, time: Seq<char>, width: u16)
    ensures
        message_row(m, time, width).kind == RowKind::Message,
        message_row(m, time, width).time == time,
        message_row(m, time, width).name == wrapped_lines(m.spec_name(), NAME_WIDTH as usize),
        message_row(m, time, width).message == wrap_all(
            split_lines(with_params(m.0.message@, m.0.messageParameters@)),
            width as usize,
        ),
        message_row(m, time, width).height >= message_row(m, time, width).message.len(),
        message_row(m, time, width).height >= message_row(m, time, width).name.len(),
        message_row(m, time, width).height == message_row(m, time, width).message.len()
            || message_row(m, time, width).height == message_row(m, time, width).name.len(),
{
}

/// The number of rows of kind `kind`.
pub open spec fn kind_count(rows: Seq<RowView>, kind: RowKind) -> nat
    decreases rows.len(),
{
    if rows.len() == 0 {
        0
    } else {
        kind_count(rows.drop_first(), kind) + if rows[0].kind == kind {
            1nat
        } else {
            0nat
        }
    }
}

/// The number of shown messages whose identifier is `marker`'s.
pub open spec fn marked_count(ms: Seq<NCMessage>, marker: Option<i32>) -> nat
    decreases ms.len(),
{
    if ms.len() == 0 {
        0
    } else {
        marked_count(ms.drop_first(), marker) + if is_shown(ms[0]) && marker == Some(ms[0].0.id) {
            1nat
        } else {
            0nat
        }
    }
}

/// The number of shown messages that have reactions.
pub open spec fn reacted_count(ms: Seq<NCMessage>) -> nat
    decreases ms.len(),
{
    if ms.len() == 0 {
        0
    } else {
        reacted_count(ms.drop_first()) + if is_shown(ms[0]) && ms[0].0.reactions@.len() > 0 {
            1nat
        } else {
            0nat
        }
    }
}

proof fn lemma_kind_count_add(a: Seq<RowView>, b: Seq<RowView>, kind: RowKind)
    ensures
        kind_count(a + b, kind) == kind_count(a, kind) + kind_count(b, kind),
    decreases a.len(),
{
    if a.len() > 0 {
        lemma_kind_count_add(a.drop_first(), b, kind);
        assert((a + b).drop_first() =~= a.drop_first() + b);
    } else {
        assert(a + b =~= b);
    }
}

/// The marker and reaction rows of the chat view: one marker row, reading
/// "+++ LAST READ +++", after each shown message whose identifier is the
/// last read one (none when nothing is unread), and one reaction row for
/// each shown message with reactions.
pub proof fn law_marker_and_reaction_rows(
    ms: Seq<NCMessage>,
    dates: Seq<Seq<char>>,
    todays: Seq<Seq<char>>,
    times: Seq<Seq<char>>,
    last: Seq<char>,
    width: u16,
    marker: Option<i32>,
)
    requires
        dates.len() == ms.len(),
        todays.len() == ms.len(),
        times.len() == ms.len(),
    ensures
        kind_count(chat_rows(ms, dates, todays, times, last, width, marker), RowKind::UnreadMarker)
            == marked_count(ms, marker),
        kind_count(chat_rows(ms, dates, todays, times, last, width, marker), RowKind::Reactions)
            == reacted_count(ms),
        forall|i: int|
            0 <= i < chat_rows(ms, dates, todays, times, last, width, marker).len() && (
            #[trigger] chat_rows(ms, dates, todays, times, last, width, marker)[i]).kind
                == RowKind::UnreadMarker ==> chat_rows(ms, dates, todays, times, last, width, marker)[i].message
                == seq!["+++ LAST READ +++"@],
    decreases ms.len(),
{
    let rows = chat_rows(ms, dates, todays, times, last, width, marker);
    if ms.len() == 0 {
        assert(kind_count(rows, RowKind::UnreadMarker) == 0);
    } else {
        let next = if is_shown(ms[0]) {
            dates[0]
        } else {
            last
        };
        law_marker_and_reaction_rows(
            ms.drop_first(),
            dates.drop_first(),
            todays.drop_first(),
            times.drop_first(),
            next,
            width,
            marker,
        );
        let rest = chat_rows(
            ms.drop_first(),
            dates.drop_first(),
            todays.drop_first(),
            times.drop_first(),
            next,
            width,
            marker,
        );
        if is_shown(ms[0]) {
            let head: Seq<RowView> = if dates[0] != last {
                seq![date_row(dates[0], todays[0])]
            } else {
                seq![]
            };
            let row = seq![message_row(ms[0], times[0], width)];
            let reactions: Seq<RowView> = if ms[0].0.reactions@.len() > 0 {
                seq![text_row(RowKind::Reactions, join(reaction_texts(ms[0].0.reactions@), ", "@))]
            } else {
                seq![]
            };
            let marks: Seq<RowView> = if marker == Some(ms[0].0.id) {
                seq![marker_row()]
            } else {
                seq![]
            };
            assert(trailer_rows(ms[0], marker) == reactions + marks);
            assert(rows == head + row + reactions + marks + rest);
            lemma_kind_count_add(head, row, RowKind::UnreadMarker);
            lemma_kind_count_add(head + row, reactions, RowKind::UnreadMarker);
            lemma_kind_count_add(head + row + reactions, marks, RowKind::UnreadMarker);
            lemma_kind_count_add(head + row + reactions + marks, rest, RowKind::UnreadMarker);
            lemma_kind_count_add(head, row, RowKind::Reactions);
            lemma_kind_count_add(head + row, reactions, RowKind::Reactions);
            lemma_kind_count_add(head + row + reactions, marks, RowKind::Reactions);
            lemma_kind_count_add(head + row + reactions + marks, rest, RowKind::Reactions);
            reveal_with_fuel(kind_count, 2);
            assert(kind_count(head, RowKind::UnreadMarker) == 0);
            assert(kind_count(row, RowKind::UnreadMarker) == 0);
            assert(kind_count(reactions, RowKind::UnreadMarker) == 0);
            assert(kind_count(head, RowKind::Reactions) == 0);
            assert(kind_count(row, RowKind::Reactions) == 0);
            assert(kind_count(marks, RowKind::Reactions) == 0);
            let front = head + row + reactions + marks;
            assert forall|i: int| 0 <= i < rows.len() && (#[trigger] rows[i]).kind
                == RowKind::UnreadMarker implies rows[i].message == seq!["+++ LAST READ +++"@] by {
                if i >= front.len() {
                    assert(rows[i] == rest[i - front.len()]);
                } else {
                    assert(rows[i] == front[i]);
                }
            }
        } else {
            assert(rows == rest);
        }
    }
}

} // verus!

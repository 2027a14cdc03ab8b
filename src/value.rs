//! The value types of a game record and the CSA text each of them renders to.
use crate::text::{decimal, padded2, push_decimal, push_padded2, push_signed, signed_decimal};
use vstd::prelude::*;

verus! {

/// The side that moves: Black (sente, moves first) or White (gote).
#[derive(Debug, PartialEq, Eq, Clone, Copy)]
pub enum Color {
    Black,
    White,
}

impl Default for Color {
    fn default() -> (r: Self)
        ensures
            r == Color::Black,
    {
        Color::Black
    }
}

impl Color {
    /// `+` for Black, `-` for White.
    pub open spec fn text(self) -> Seq<char> {
        match self {
            Color::Black => "+"@,
            Color::White => "-"@,
        }
    }

    fn token(&self) -> (s: &'static str)
        ensures
            s@ == self.text(),
    {
        match self {
            Color::Black => "+",
            Color::White => "-",
        }
    }

    pub fn write_to(&self, out: &mut String)
        ensures
            final(out)@ == old(out)@ + self.text(),
    {
        out.append(self.token());
    }

    pub fn to_string(&self) -> (r: String)
        ensures
            r@ == self.text(),
    {
        let mut s = String::new();
        self.write_to(&mut s);
        assert(s@ =~= self.text());
        s
    }
}

/// A square of the board: file and rank, each 1 to 9 on a real board.
#[derive(Debug, PartialEq, Eq, Clone, Copy)]
pub struct Square {
    pub file: u8,
    pub rank: u8,
}

impl Square {
    pub fn new(file: u8, rank: u8) -> (r: Square)
        ensures
            r.file == file,
            r.rank == rank,
    {
        Square { file, rank }
    }

    /// The file's digits followed by the rank's, with no separator.
    pub open spec fn text(self) -> Seq<char> {
        decimal(self.file as nat) + decimal(self.rank as nat)
    }

    pub fn write_to(&self, out: &mut String)
        ensures
            final(out)@ == old(out)@ + self.text(),
    {
        push_decimal(out, self.file as u64);
        push_decimal(out, self.rank as u64);
        assert(out@ =~= old(out)@ + self.text());
    }

    pub fn to_string(&self) -> (r: String)
        ensures
            r@ == self.text(),
    {
        let mut s = String::new();
        self.write_to(&mut s);
        assert(s@ =~= self.text());
        s
    }
}

/// A kind of piece, or `All`, the wildcard for every piece.
#[derive(Debug, PartialEq, Eq, Clone, Copy)]
pub enum PieceType {
    Pawn,
    Lance,
    Knight,
    Silver,
    Gold,
    Bishop,
    Rook,
    King,
    ProPawn,
    ProLance,
    ProKnight,
    ProSilver,
    Horse,
    Dragon,
    All,
}

impl PieceType {
    /// The two-letter code of the piece.
    pub open spec fn text(self) -> Seq<char> {
        match self {
            PieceType::Pawn => "FU"@,
            PieceType::Lance => "KY"@,
            PieceType::Knight => "KE"@,
            PieceType::Silver => "GI"@,
            PieceType::Gold => "KI"@,
            PieceType::Bishop => "KA"@,
            PieceType::Rook => "HI"@,
            PieceType::King => "OU"@,
            PieceType::ProPawn => "TO"@,
            PieceType::ProLance => "NY"@,
            PieceType::ProKnight => "NK"@,
            PieceType::ProSilver => "NG"@,
            PieceType::Horse => "UM"@,
            PieceType::Dragon => "RY"@,
            PieceType::All => "AL"@,
        }
    }

    fn token(&self) -> (s: &'static str)
        ensures
            s@ == self.text(),
    {
        match self {
            PieceType::Pawn => "FU",
            PieceType::Lance => "KY",
            PieceType::Knight => "KE",
            PieceType::Silver => "GI",
            PieceType::Gold => "KI",
            PieceType::Bishop => "KA",
            PieceType::Rook => "HI",
            PieceType::King => "OU",
            PieceType::ProPawn => "TO",
            PieceType::ProLance => "NY",
            PieceType::ProKnight => "NK",
            PieceType::ProSilver => "NG",
            PieceType::Horse => "UM",
            PieceType::Dragon => "RY",
            PieceType::All => "AL",
        }
    }

    pub fn write_to(&self, out: &mut String)
        ensures
            final(out)@ == old(out)@ + self.text(),
    {
        out.append(self.token());
    }

    pub fn to_string(&self) -> (r: String)
        ensures
            r@ == self.text(),
    {
        let mut s = String::new();
        self.write_to(&mut s);
        assert(s@ =~= self.text());
        s
    }
}

/// One entry of the move list: a move, or an event that ends or interrupts the game.
#[derive(Debug, PartialEq, Eq, Clone, Copy)]
pub enum Action {
    /// The mover, the square moved from, the square moved to, and the piece
    /// as it stands after the move.
    Move(Color, Square, Square, PieceType),
    Toryo,
    Chudan,
    Sennichite,
    TimeUp,
    IllegalMove,
    IllegalAction(Color),
    Jishogi,
    Kachi,
    Hikiwake,
    Matta,
    Tsumi,
    Fuzumi,
    Error,
}

impl Action {
    /// A move is its color, squares and piece run together; every other
    /// action is `%` and its keyword.
    pub open spec fn text(self) -> Seq<char> {
        match self {
            Action::Move(color, from, to, pt) => color.text() + from.text() + to.text() + pt.text(),
            Action::Toryo => "%TORYO"@,
            Action::Chudan => "%CHUDAN"@,
            Action::Sennichite => "%SENNICHITE"@,
            Action::TimeUp => "%TIME_UP"@,
            Action::IllegalMove => "%ILLEGAL_MOVE"@,
            Action::IllegalAction(color) => "%"@ + color.text() + "ILLEGAL_ACTION"@,
            Action::Jishogi => "%JISHOGI"@,
            Action::Kachi => "%KACHI"@,
            Action::Hikiwake => "%HIKIWAKE"@,
            Action::Matta => "%MATTA"@,
            Action::Tsumi => "%TSUMI"@,
            Action::Fuzumi => "%FUZUMI"@,
            Action::Error => "%ERROR"@,
        }
    }

    pub fn write_to(&self, out: &mut String)
        ensures
            final(out)@ == old(out)@ + self.text(),
    {
        match self {
            Action::Move(color, from, to, pt) => {
                color.write_to(out);
                from.write_to(out);
                to.write_to(out);
                pt.write_to(out);
            },
            Action::Toryo => out.append("%TORYO"),
            Action::Chudan => out.append("%CHUDAN"),
            Action::Sennichite => out.append("%SENNICHITE"),
            Action::TimeUp => out.append("%TIME_UP"),
            Action::IllegalMove => out.append("%ILLEGAL_MOVE"),
            Action::IllegalAction(color) => {
                out.append("%");
                color.write_to(out);
                out.append("ILLEGAL_ACTION");
            },
            Action::Jishogi => out.append("%JISHOGI"),
            Action::Kachi => out.append("%KACHI"),
            Action::Hikiwake => out.append("%HIKIWAKE"),
            Action::Matta => out.append("%MATTA"),
            Action::Tsumi => out.append("%TSUMI"),
            Action::Fuzumi => out.append("%FUZUMI"),
            Action::Error => out.append("%ERROR"),
        }
        assert(out@ =~= old(out)@ + self.text());
    }

    pub fn to_string(&self) -> (r: String)
        ensures
            r@ == self.text(),
    {
        let mut s = String::new();
        self.write_to(&mut s);
        assert(s@ =~= self.text());
        s
    }
}

/// A calendar date: year, month 1 to 12, day 1 to 31.
#[derive(Debug, PartialEq, Eq, Clone, Copy)]
pub struct Date {
    pub year: i32,
    pub month: u8,
    pub day: u8,
}

/// A time of day: hour 0 to 23, minute and second 0 to 59.
#[derive(Debug, PartialEq, Eq, Clone, Copy)]
pub struct TimeOfDay {
    pub hour: u8,
    pub minute: u8,
    pub second: u8,
}

/// A date with an optional time of day.
#[derive(Debug, PartialEq, Eq, Clone, Copy)]
pub struct Time {
    pub date: Date,
    pub time: Option<TimeOfDay>,
}

/// Relies on time::OffsetDateTime::now_utc and its year, month, day, hour,
/// minute and second accessors: the current UTC date and time, each field
/// within the range that the crate documents for it.
#[verifier::external_body]
fn utc_now() -> (r: (i32, u8, u8, u8, u8, u8))
    ensures
        -999_999 <= r.0 <= 999_999,
        1 <= r.1 <= 12,
        1 <= r.2 <= 31,
        r.3 < 24,
        r.4 < 60,
        r.5 < 60,
{
    let now = time::OffsetDateTime::now_utc();
    (now.year(), now.month() as u8, now.day(), now.hour(), now.minute(), now.second())
}

impl Date {
    pub open spec fn wf(self) -> bool {
        1 <= self.month <= 12 && 1 <= self.day <= 31
    }

    /// `year/MM/DD`: the year as it is, month and day zero-padded to two digits.
    pub open spec fn text(self) -> Seq<char> {
        signed_decimal(self.year as int) + "/"@ + padded2(self.month as nat) + "/"@ + padded2(
            self.day as nat,
        )
    }

    pub fn write_to(&self, out: &mut String)
        ensures
            final(out)@ == old(out)@ + self.text(),
    {
        push_signed(out, self.year);
        out.append("/");
        push_padded2(out, self.month as u64);
        out.append("/");
        push_padded2(out, self.day as u64);
        assert(out@ =~= old(out)@ + self.text());
    }
}

impl TimeOfDay {
    pub open spec fn wf(self) -> bool {
        self.hour < 24 && self.minute < 60 && self.second < 60
    }

    /// `H:MM:SS`: the hour unpadded, minute and second zero-padded to two digits.
    pub open spec fn text(self) -> Seq<char> {
        decimal(self.hour as nat) + ":"@ + padded2(self.minute as nat) + ":"@ + padded2(
            self.second as nat,
        )
    }

    pub fn write_to(&self, out: &mut String)
        ensures
            final(out)@ == old(out)@ + self.text(),
    {
        push_decimal(out, self.hour as u64);
        out.append(":");
        push_padded2(out, self.minute as u64);
        out.append(":");
        push_padded2(out, self.second as u64);
        assert(out@ =~= old(out)@ + self.text());
    }
}

impl Time {
    pub open spec fn wf(self) -> bool {
        &&& self.date.wf()
        &&& match self.time {
            Some(t) => t.wf(),
            None => true,
        }
    }

    /// The current UTC date and time.
    pub fn now() -> (r: Time)
        ensures
            r.wf(),
            r.time.is_some(),
    {
        let (year, month, day, hour, minute, second) = utc_now();
        Time {
            date: Date { year, month, day },
            time: Some(TimeOfDay { hour, minute, second }),
        }
    }

    /// The date, then a space and the time of day when there is one.
    pub open spec fn text(self) -> Seq<char> {
        match self.time {
            Some(t) => self.date.text() + " "@ + t.text(),
            None => self.date.text(),
        }
    }

    pub fn write_to(&self, out: &mut String)
        ensures
            final(out)@ == old(out)@ + self.text(),
    {
        self.date.write_to(out);
        match &self.time {
            Some(t) => {
                out.append(" ");
                t.write_to(out);
            },
            None => {},
        }
        assert(out@ =~= old(out)@ + self.text());
    }

    pub fn to_string(&self) -> (r: String)
        ensures
            r@ == self.text(),
    {
        let mut s = String::new();
        self.write_to(&mut s);
        assert(s@ =~= self.text());
        s
    }
}

/// Main thinking time and byoyomi, both in whole seconds.
#[derive(Debug, PartialEq, Eq, Clone, Copy)]
pub struct TimeLimit {
    pub main_time: u64,
    pub byoyomi: u64,
}

impl TimeLimit {
    /// `HH:MM+SS`: the main time's whole hours and remaining whole minutes,
    /// then the byoyomi's seconds, each zero-padded to two digits. Seconds of
    /// the main time below a minute are dropped.
    pub open spec fn text(self) -> Seq<char> {
        padded2(self.main_time as nat / 3600) + ":"@ + padded2((self.main_time as nat % 3600) / 60)
            + "+"@ + padded2(self.byoyomi as nat)
    }

    pub fn write_to(&self, out: &mut String)
        ensures
            final(out)@ == old(out)@ + self.text(),
    {
        let secs = self.main_time;
        push_padded2(out, secs / 3600);
        out.append(":");
        push_padded2(out, (secs % 3600) / 60);
        out.append("+");
        push_padded2(out, self.byoyomi);
        assert(out@ =~= old(out)@ + self.text());
    }

    pub fn to_string(&self) -> (r: String)
        ensures
            r@ == self.text(),
    {
        let mut s = String::new();
        self.write_to(&mut s);
        assert(s@ =~= self.text());
        s
    }
}

/// A value of a game's metadata.
#[derive(Debug, PartialEq, Eq)]
pub enum GameAttribute {
    Time(Time),
    TimeLimit(TimeLimit),
    Str(String),
}

impl GameAttribute {
    /// The text of the value it holds.
    pub open spec fn text(&self) -> Seq<char> {
        match self {
            GameAttribute::Time(t) => t.text(),
            GameAttribute::TimeLimit(l) => l.text(),
            GameAttribute::Str(s) => s@,
        }
    }

    pub fn write_to(&self, out: &mut String)
        ensures
            final(out)@ == old(out)@ + self.text(),
    {
        match self {
            GameAttribute::Time(t) => t.write_to(out),
            GameAttribute::TimeLimit(l) => l.write_to(out),
            GameAttribute::Str(s) => out.append(s.as_str()),
        }
    }

    pub fn to_string(&self) -> (r: String)
        ensures
            r@ == self.text(),
    {
        let mut s = String::new();
        self.write_to(&mut s);
        assert(s@ =~= self.text());
        s
    }
}

/// One entry of the move list: an action and, optionally, the seconds it took.
#[derive(Debug, PartialEq, Eq, Clone, Copy)]
pub struct MoveRecord {
    pub action: Action,
    pub time: Option<u64>,
}

impl MoveRecord {
    /// The action's line, then a `T` line with the elapsed seconds when known.
    pub open spec fn text(self) -> Seq<char> {
        match self.time {
            Some(secs) => self.action.text() + "\n"@ + "T"@ + decimal(secs as nat) + "\n"@,
            None => self.action.text() + "\n"@,
        }
    }

    pub fn write_to(&self, out: &mut String)
        ensures
            final(out)@ == old(out)@ + self.text(),
    {
        self.action.write_to(out);
        out.append("\n");
        match self.time {
            Some(secs) => {
                out.append("T");
                push_decimal(out, secs);
                out.append("\n");
            },
            None => {},
        }
        assert(out@ =~= old(out)@ + self.text());
    }

    pub fn to_string(&self) -> (r: String)
        ensures
            r@ == self.text(),
    {
        let mut s = String::new();
        self.write_to(&mut s);
        assert(s@ =~= self.text());
        s
    }
}

/// A full board: nine rows of nine cells, each empty or holding a piece of a color.
type Board = [[Option<(Color, PieceType)>; 9]; 9];

/// The position before the first move.
///
/// With `bulk`, the whole board is listed row by row; without it, `PI` and the
/// pieces in `drop_pieces` describe it. Either way `add_pieces` follow, then
/// the side to move.
#[derive(Debug, Default, PartialEq, Eq)]
pub struct Position {
    pub drop_pieces: Vec<(Square, PieceType)>,
    pub bulk: Option<Board>,
    pub add_pieces: Vec<(Color, Square, PieceType)>,
    pub side_to_move: Color,
}

/// A cell of a board row: color and piece, or ` * ` when empty.
pub open spec fn cell_text(cell: Option<(Color, PieceType)>) -> Seq<char> {
    match cell {
        Some((color, pt)) => color.text() + pt.text(),
        None => " * "@,
    }
}

/// The cells of a row, in order.
pub open spec fn cells_text(cells: Seq<Option<(Color, PieceType)>>) -> Seq<char>
    decreases cells.len(),
{
    if cells.len() == 0 {
        Seq::empty()
    } else {
        cells_text(cells.drop_last()) + cell_text(cells.last())
    }
}

/// The line of the row numbered `n`, counting from one.
pub open spec fn row_line(n: nat, row: [Option<(Color, PieceType)>; 9]) -> Seq<char> {
    "P"@ + decimal(n) + cells_text(row@) + "\n"@
}

/// The lines of the given rows, numbered from one.
pub open spec fn rows_text(rows: Seq<[Option<(Color, PieceType)>; 9]>) -> Seq<char>
    decreases rows.len(),
{
    if rows.len() == 0 {
        Seq::empty()
    } else {
        rows_text(rows.drop_last()) + row_line(rows.len(), rows.last())
    }
}

/// The pieces of the sparse layout, each as its square and its code.
pub open spec fn drops_text(drops: Seq<(Square, PieceType)>) -> Seq<char>
    decreases drops.len(),
{
    if drops.len() == 0 {
        Seq::empty()
    } else {
        drops_text(drops.drop_last()) + drops.last().0.text() + drops.last().1.text()
    }
}

/// The line of one added piece.
pub open spec fn add_line(add: (Color, Square, PieceType)) -> Seq<char> {
    "P"@ + add.0.text() + add.1.text() + add.2.text() + "\n"@
}

/// The lines of the added pieces, in order.
pub open spec fn adds_text(adds: Seq<(Color, Square, PieceType)>) -> Seq<char>
    decreases adds.len(),
{
    if adds.len() == 0 {
        Seq::empty()
    } else {
        adds_text(adds.drop_last()) + add_line(adds.last())
    }
}

/// The text of the moves, in order.
pub open spec fn moves_text(moves: Seq<MoveRecord>) -> Seq<char>
    decreases moves.len(),
{
    if moves.len() == 0 {
        Seq::empty()
    } else {
        moves_text(moves.drop_last()) + moves.last().text()
    }
}

impl Position {
    /// The board's primary layout: the rows of `bulk` when it is there, else
    /// `PI` and the dropped pieces on one line.
    pub open spec fn layout_text(&self) -> Seq<char> {
        match self.bulk {
            Some(board) => rows_text(board@),
            None => "PI"@ + drops_text(self.drop_pieces@) + "\n"@,
        }
    }

    /// The layout, the added pieces, then the side to move on a line of its own.
    pub open spec fn text(&self) -> Seq<char> {
        self.layout_text() + adds_text(self.add_pieces@) + self.side_to_move.text() + "\n"@
    }

    fn write_row(out: &mut String, n: u64, row: &[Option<(Color, PieceType)>; 9])
        ensures
            final(out)@ == old(out)@ + row_line(n as nat, *row),
    {
        out.append("P");
        push_decimal(out, n);
        let ghost start = out@;
        let mut j: usize = 0;
        while j < 9
            invariant
                j <= 9,
                row@.len() == 9,
                out@ == start + cells_text(row@.take(j as int)),
            decreases 9 - j,
        {
            match row[j] {
                Some((color, pt)) => {
                    color.write_to(out);
                    pt.write_to(out);
                },
                None => out.append(" * "),
            }
            proof {
                assert(row@.take(j + 1).drop_last() =~= row@.take(j as int));
            }
            j += 1;
            assert(out@ =~= start + cells_text(row@.take(j as int)));
        }
        assert(row@.take(9) =~= row@);
        out.append("\n");
        assert(out@ =~= old(out)@ + row_line(n as nat, *row));
    }

    fn write_add(out: &mut String, add: (Color, Square, PieceType))
        ensures
            final(out)@ == old(out)@ + add_line(add),
    {
        let (color, sq, pt) = add;
        out.append("P");
        color.write_to(out);
        sq.write_to(out);
        pt.write_to(out);
        out.append("\n");
        assert(out@ =~= old(out)@ + add_line(add));
    }

    fn write_layout(&self, out: &mut String)
        ensures
            final(out)@ == old(out)@ + self.layout_text(),
    {
        match &self.bulk {
            Some(board) => {
                let mut i: usize = 0;
                while i < 9
                    invariant
                        i <= 9,
                        board@.len() == 9,
                        out@ == old(out)@ + rows_text(board@.take(i as int)),
                    decreases 9 - i,
                {
                    Self::write_row(out, (i + 1) as u64, &board[i]);
                    proof {
                        assert(board@.take(i + 1).drop_last() =~= board@.take(i as int));
                    }
                    i += 1;
                    assert(out@ =~= old(out)@ + rows_text(board@.take(i as int)));
                }
                assert(board@.take(9) =~= board@);
            },
            None => {
                out.append("PI");
                let ghost start = out@;
                let mut i: usize = 0;
                while i < self.drop_pieces.len()
                    invariant
                        i <= self.drop_pieces@.len(),
                        out@ == start + drops_text(self.drop_pieces@.take(i as int)),
                    decreases self.drop_pieces@.len() - i,
                {
                    let (sq, pt) = self.drop_pieces[i];
                    sq.write_to(out);
                    pt.write_to(out);
                    proof {
                        assert(self.drop_pieces@.take(i + 1).drop_last() =~= self.drop_pieces@.take(
                            i as int,
                        ));
                    }
                    i += 1;
                    assert(out@ =~= start + drops_text(self.drop_pieces@.take(i as int)));
                }
                assert(self.drop_pieces@.take(i as int) =~= self.drop_pieces@);
                out.append("\n");
                assert(out@ =~= old(out)@ + self.layout_text());
            },
        }
    }

    pub fn write_to(&self, out: &mut String)
        ensures
            final(out)@ == old(out)@ + self.text(),
    {
        self.write_layout(out);
        let ghost start = out@;
        let mut i: usize = 0;
        while i < self.add_pieces.len()
            invariant
                i <= self.add_pieces@.len(),
                out@ == start + adds_text(self.add_pieces@.take(i as int)),
            decreases self.add_pieces@.len() - i,
        {
            Self::write_add(out, self.add_pieces[i]);
            proof {
                assert(self.add_pieces@.take(i + 1).drop_last() =~= self.add_pieces@.take(i as int));
            }
            i += 1;
            assert(out@ =~= start + adds_text(self.add_pieces@.take(i as int)));
        }
        assert(self.add_pieces@.take(i as int) =~= self.add_pieces@);
        self.side_to_move.write_to(out);
        out.append("\n");
        assert(out@ =~= old(out)@ + self.text());
    }

    pub fn to_string(&self) -> (r: String)
        ensures
            r@ == self.text(),
    {
        let mut s = String::new();
        self.write_to(&mut s);
        assert(s@ =~= self.text());
        s
    }
}

/// A whole game: metadata, the starting position, and the moves in order.
#[derive(Default, Debug, PartialEq, Eq)]
pub struct GameRecord {
    pub black_player: Option<String>,
    pub white_player: Option<String>,
    pub event: Option<String>,
    pub site: Option<String>,
    pub start_time: Option<Time>,
    pub end_time: Option<Time>,
    pub time_limit: Option<TimeLimit>,
    pub opening: Option<String>,
    pub start_pos: Position,
    pub moves: Vec<MoveRecord>,
}

/// A metadata line, `key` then the value, or nothing when the value is absent.
pub open spec fn field_line(key: Seq<char>, value: Option<Seq<char>>) -> Seq<char> {
    match value {
        Some(v) => key + v + "\n"@,
        None => Seq::empty(),
    }
}

pub open spec fn string_value(value: Option<String>) -> Option<Seq<char>> {
    match value {
        Some(s) => Some(s@),
        None => None,
    }
}

pub open spec fn time_value(value: Option<Time>) -> Option<Seq<char>> {
    match value {
        Some(t) => Some(t.text()),
        None => None,
    }
}

pub open spec fn time_limit_value(value: Option<TimeLimit>) -> Option<Seq<char>> {
    match value {
        Some(l) => Some(l.text()),
        None => None,
    }
}

fn write_string_field(out: &mut String, key: &str, value: &Option<String>)
    ensures
        final(out)@ == old(out)@ + field_line(key@, string_value(*value)),
{
    match value {
        Some(v) => {
            out.append(key);
            out.append(v.as_str());
            out.append("\n");
        },
        None => {},
    }
    assert(out@ =~= old(out)@ + field_line(key@, string_value(*value)));
}

fn write_time_field(out: &mut String, key: &str, value: &Option<Time>)
    ensures
        final(out)@ == old(out)@ + field_line(key@, time_value(*value)),
{
    match value {
        Some(t) => {
            out.append(key);
            t.write_to(out);
            out.append("\n");
        },
        None => {},
    }
    assert(out@ =~= old(out)@ + field_line(key@, time_value(*value)));
}

fn write_time_limit_field(out: &mut String, key: &str, value: &Option<TimeLimit>)
    ensures
        final(out)@ == old(out)@ + field_line(key@, time_limit_value(*value)),
{
    match value {
        Some(l) => {
            out.append(key);
            l.write_to(out);
            out.append("\n");
        },
        None => {},
    }
    assert(out@ =~= old(out)@ + field_line(key@, time_limit_value(*value)));
}

impl GameRecord {
    /// The metadata lines in their fixed order; an absent field has no line.
    pub open spec fn metadata_text(&self) -> Seq<char> {
        field_line("N+"@, string_value(self.black_player)) + field_line(
            "N-"@,
            string_value(self.white_player),
        ) + field_line("$EVENT:"@, string_value(self.event)) + field_line(
            "$SITE:"@,
            string_value(self.site),
        ) + field_line("$START_TIME:"@, time_value(self.start_time)) + field_line(
            "$END_TIME:"@,
            time_value(self.end_time),
        ) + field_line("$TIME_LIMIT:"@, time_limit_value(self.time_limit)) + field_line(
            "$OPENING:"@,
            string_value(self.opening),
        )
    }

    /// The version line, the metadata, the position, then every move.
    pub open spec fn text(&self) -> Seq<char> {
        "V2.2\n"@ + self.metadata_text() + self.start_pos.text() + moves_text(self.moves@)
    }

    fn write_metadata(&self, out: &mut String)
        ensures
            final(out)@ == old(out)@ + self.metadata_text(),
    {
        write_string_field(out, "N+", &self.black_player);
        write_string_field(out, "N-", &self.white_player);
        write_string_field(out, "$EVENT:", &self.event);
        write_string_field(out, "$SITE:", &self.site);
        write_time_field(out, "$START_TIME:", &self.start_time);
        write_time_field(out, "$END_TIME:", &self.end_time);
        write_time_limit_field(out, "$TIME_LIMIT:", &self.time_limit);
        write_string_field(out, "$OPENING:", &self.opening);
        assert(out@ =~= old(out)@ + self.metadata_text());
    }

    pub fn write_to(&self, out: &mut String)
        ensures
            final(out)@ == old(out)@ + self.text(),
    {
        out.append("V2.2\n");
        self.write_metadata(out);
        self.start_pos.write_to(out);
        let ghost start = out@;
        let mut i: usize = 0;
        while i < self.moves.len()
            invariant
                i <= self.moves@.len(),
                out@ == start + moves_text(self.moves@.take(i as int)),
            decreases self.moves@.len() - i,
        {
            self.moves[i].write_to(out);
            proof {
                assert(self.moves@.take(i + 1).drop_last() =~= self.moves@.take(i as int));
            }
            i += 1;
            assert(out@ =~= start + moves_text(self.moves@.take(i as int)));
        }
        assert(self.moves@.take(i as int) =~= self.moves@);
        assert(out@ =~= old(out)@ + self.text());
    }

    pub fn to_string(&self) -> (r: String)
        ensures
            r@ == self.text(),
    {
        let mut s = String::new();
        self.write_to(&mut s);
        assert(s@ =~= self.text());
        s
    }
}

} // verus!

use csa::value::{
    Action, Color, Date, GameAttribute, GameRecord, MoveRecord, PieceType, Position, Square, Time,
    TimeLimit, TimeOfDay,
};

fn time_from(date: time::Date, clock: Option<time::Time>) -> Time {
    Time {
        date: Date { year: date.year(), month: date.month() as u8, day: date.day() },
        time: clock.map(|t| TimeOfDay { hour: t.hour(), minute: t.minute(), second: t.second() }),
    }
}

#[test]
fn piece_type() {
    assert_eq!(&PieceType::Pawn.to_string(), "FU");
    assert_eq!(&PieceType::Lance.to_string(), "KY");
    assert_eq!(&PieceType::Knight.to_string(), "KE");
    assert_eq!(&PieceType::Silver.to_string(), "GI");
    assert_eq!(&PieceType::Gold.to_string(), "KI");
    assert_eq!(&PieceType::Bishop.to_string(), "KA");
    assert_eq!(&PieceType::Rook.to_string(), "HI");
    assert_eq!(&PieceType::King.to_string(), "OU");
    assert_eq!(&PieceType::ProPawn.to_string(), "TO");
    assert_eq!(&PieceType::ProLance.to_string(), "NY");
    assert_eq!(&PieceType::ProKnight.to_string(), "NK");
    assert_eq!(&PieceType::ProSilver.to_string(), "NG");
    assert_eq!(&PieceType::Horse.to_string(), "UM");
    assert_eq!(&PieceType::Dragon.to_string(), "RY");
    assert_eq!(&PieceType::All.to_string(), "AL");
}

#[test]
fn action() {
    assert_eq!(
        &Action::Move(Color::Black, Square::new(7, 7), Square::new(7, 6), PieceType::Pawn,)
            .to_string(),
        "+7776FU"
    );

    assert_eq!(&Action::Toryo.to_string(), "%TORYO");
    assert_eq!(&Action::Chudan.to_string(), "%CHUDAN");
    assert_eq!(&Action::Sennichite.to_string(), "%SENNICHITE");
    assert_eq!(&Action::TimeUp.to_string(), "%TIME_UP");
    assert_eq!(&Action::IllegalMove.to_string(), "%ILLEGAL_MOVE");
    assert_eq!(&Action::IllegalAction(Color::Black).to_string(), "%+ILLEGAL_ACTION");
    assert_eq!(&Action::IllegalAction(Color::White).to_string(), "%-ILLEGAL_ACTION");
    assert_eq!(&Action::Jishogi.to_string(), "%JISHOGI");
    assert_eq!(&Action::Kachi.to_string(), "%KACHI");
    assert_eq!(&Action::Hikiwake.to_string(), "%HIKIWAKE");
    assert_eq!(&Action::Matta.to_string(), "%MATTA");
    assert_eq!(&Action::Tsumi.to_string(), "%TSUMI");
    assert_eq!(&Action::Fuzumi.to_string(), "%FUZUMI");
    assert_eq!(&Action::Error.to_string(), "%ERROR");
}

#[test]
fn game_record() {
    let mut g = GameRecord {
        black_player: Some("NAKAHARA".to_string()),
        white_player: Some("YONENAGA".to_string()),
        event: Some("13th World Computer Shogi Championship".to_string()),
        site: Some("KAZUSA ARC".to_string()),
        start_time: Some(time_from(
            time::Date::from_calendar_date(2003, time::Month::May, 3).unwrap(),
            Some(time::Time::from_hms(10, 30, 0).unwrap()),
        )),
        end_time: Some(time_from(
            time::Date::from_calendar_date(2003, time::Month::May, 3).unwrap(),
            Some(time::Time::from_hms(11, 11, 5).unwrap()),
        )),
        time_limit: Some(TimeLimit {
            main_time: std::time::Duration::from_secs(1500).as_secs(),
            byoyomi: std::time::Duration::from_secs(0).as_secs(),
        }),
        opening: Some("YAGURA".to_string()),
        ..GameRecord::default()
    };
    g.moves.push(MoveRecord {
        action: Action::Move(Color::Black, Square::new(8, 7), Square::new(8, 6), PieceType::Pawn),
        time: Some(std::time::Duration::from_secs(5).as_secs()),
    });
    g.moves.push(MoveRecord { action: Action::Toryo, time: None });

    let csa = "\
V2.2
N+NAKAHARA
N-YONENAGA
$EVENT:13th World Computer Shogi Championship
$SITE:KAZUSA ARC
$START_TIME:2003/05/03 10:30:00
$END_TIME:2003/05/03 11:11:05
$TIME_LIMIT:00:25+00
$OPENING:YAGURA
PI
+
+8786FU
T5
%TORYO
";

    assert_eq!(csa, g.to_string());
}

#[test]
fn color_tokens_and_default() {
    assert_eq!(Color::Black.to_string(), "+");
    assert_eq!(Color::White.to_string(), "-");
    assert_eq!(Color::default(), Color::Black);
}

#[test]
fn square_digits_run_together() {
    assert_eq!(Square::new(7, 7).to_string(), "77");
    assert_eq!(Square::new(1, 9).to_string(), "19");
    assert_eq!(Square::new(10, 2).to_string(), "102");
}

#[test]
fn time_limit_formula() {
    let l = TimeLimit { main_time: 1500, byoyomi: 0 };
    assert_eq!(l.to_string(), "00:25+00");
    let l = TimeLimit { main_time: 3 * 3600 + 7 * 60 + 59, byoyomi: 30 };
    assert_eq!(l.to_string(), "03:07+30");
    let l = TimeLimit { main_time: 100 * 3600, byoyomi: 120 };
    assert_eq!(l.to_string(), "100:00+120");
    let l = TimeLimit { main_time: 59, byoyomi: 5 };
    assert_eq!(l.to_string(), "00:00+05");
}

#[test]
fn time_pads_date_but_not_hour() {
    let t = Time {
        date: Date { year: 2003, month: 5, day: 3 },
        time: Some(TimeOfDay { hour: 9, minute: 5, second: 7 }),
    };
    assert_eq!(t.to_string(), "2003/05/03 9:05:07");
    let t = Time { date: Date { year: 2024, month: 12, day: 31 }, time: None };
    assert_eq!(t.to_string(), "2024/12/31");
    let t = Time { date: Date { year: -44, month: 3, day: 15 }, time: None };
    assert_eq!(t.to_string(), "-44/03/15");
}

#[test]
fn time_now_is_in_range() {
    let t = Time::now();
    let clock = t.time.unwrap();
    assert!(1 <= t.date.month && t.date.month <= 12);
    assert!(1 <= t.date.day && t.date.day <= 31);
    assert!(clock.hour < 24 && clock.minute < 60 && clock.second < 60);
    assert!(t.date.year >= 2019);
}

#[test]
fn game_attribute_renders_its_value() {
    assert_eq!(GameAttribute::Str("YAGURA".to_string()).to_string(), "YAGURA");
    assert_eq!(GameAttribute::TimeLimit(TimeLimit { main_time: 600, byoyomi: 10 }).to_string(), "00:10+10");
    let t = Time {
        date: Date { year: 2003, month: 5, day: 3 },
        time: Some(TimeOfDay { hour: 10, minute: 30, second: 0 }),
    };
    assert_eq!(GameAttribute::Time(t).to_string(), "2003/05/03 10:30:00");
}

#[test]
fn move_record_with_and_without_time() {
    let m = MoveRecord { action: Action::Toryo, time: Some(12) };
    assert_eq!(m.to_string(), "%TORYO\nT12\n");
    let m = MoveRecord { action: Action::Kachi, time: None };
    assert_eq!(m.to_string(), "%KACHI\n");
}

#[test]
fn no_metadata_renders_no_metadata_lines() {
    let mut g = GameRecord::default();
    g.moves.push(MoveRecord { action: Action::Chudan, time: None });
    assert_eq!(g.to_string(), "V2.2\nPI\n+\n%CHUDAN\n");
    assert_eq!(GameRecord::default().to_string(), "V2.2\nPI\n+\n");
}

#[test]
fn rendering_twice_is_identical() {
    let mut g = GameRecord::default();
    g.black_player = Some("A".to_string());
    g.moves.push(MoveRecord {
        action: Action::Move(Color::White, Square::new(3, 3), Square::new(3, 4), PieceType::Pawn),
        time: Some(1),
    });
    assert_eq!(g.to_string(), g.to_string());
}

#[test]
fn empty_bulk_board() {
    let p = Position { bulk: Some([[None; 9]; 9]), ..Position::default() };
    let mut expected = String::new();
    for i in 1..=9 {
        expected.push_str(&format!("P{}", i));
        for _ in 0..9 {
            expected.push_str(" * ");
        }
        expected.push('\n');
    }
    expected.push_str("+\n");
    assert_eq!(p.to_string(), expected);
}

#[test]
fn bulk_board_with_pieces_ignores_drops() {
    let mut board = [[None; 9]; 9];
    board[0][0] = Some((Color::White, PieceType::Lance));
    board[8][4] = Some((Color::Black, PieceType::King));
    let p = Position {
        drop_pieces: vec![(Square::new(5, 5), PieceType::Gold)],
        bulk: Some(board),
        add_pieces: vec![],
        side_to_move: Color::White,
    };
    let text = p.to_string();
    let lines: Vec<&str> = text.lines().collect();
    assert_eq!(lines.len(), 10);
    assert_eq!(lines[0], "P1-KY *  *  *  *  *  *  *  * ");
    assert_eq!(lines[8], "P9 *  *  *  * +OU *  *  *  * ");
    assert_eq!(lines[9], "-");
}

#[test]
fn sparse_position_with_drops_and_additions() {
    let p = Position {
        drop_pieces: vec![(Square::new(8, 2), PieceType::Rook), (Square::new(2, 2), PieceType::Bishop)],
        bulk: None,
        add_pieces: vec![
            (Color::Black, Square::new(0, 0), PieceType::All),
            (Color::White, Square::new(5, 1), PieceType::King),
        ],
        side_to_move: Color::White,
    };
    assert_eq!(p.to_string(), "PI82HI22KA\nP+00AL\nP-51OU\n-\n");
}

use kdam::multi_bar::{draw_ops, MAX_ROWS};
use kdam::{Bar, BarExt, Message, MultiBar, Phase, Redraw, RegisterError, TermOp};

fn message(row: i16, text: &str, force: bool) -> Message {
    Message {
        row,
        text: String::from(text),
        force,
    }
}

fn drawing(row: u16, text: &str) -> Vec<TermOp> {
    vec![
        TermOp::Feed(row),
        TermOp::Return,
        TermOp::ClearLine,
        TermOp::Print(String::from(text)),
        TermOp::Up(row),
    ]
}

fn with_rows(n: usize) -> MultiBar {
    let mut coordinator = MultiBar::new();
    for _ in 0..n {
        coordinator.register(&mut Bar::new(None)).unwrap();
    }
    coordinator
}

#[test]
fn new_coordinator_is_uninitialized() {
    let coordinator = MultiBar::new();
    assert_eq!(coordinator.phase(), Phase::Uninitialized);
    assert_eq!(coordinator.rows(), 0);
    assert_eq!(coordinator.text(0), None);
}

#[test]
fn registrations_get_rows_in_order() {
    let mut coordinator = MultiBar::new();
    let mut bars: Vec<Bar> = (0..5).map(|_| Bar::new(Some(10))).collect();
    for (i, bar) in bars.iter_mut().enumerate() {
        assert_eq!(coordinator.register(bar), Ok(i as i16));
        assert_eq!(coordinator.phase(), Phase::Active);
        assert_eq!(coordinator.rows(), i + 1);
    }
    let rows: Vec<i16> = bars.iter().map(|b| b.row()).collect();
    assert_eq!(rows, vec![0, 1, 2, 3, 4]);
    assert!(bars.iter().all(|b| b.internal().linked()));
}

#[test]
fn registered_rows_start_empty() {
    let coordinator = with_rows(2);
    assert_eq!(coordinator.text(0), Some(String::new()));
    assert_eq!(coordinator.text(1), Some(String::new()));
    assert_eq!(coordinator.text(2), None);
    assert_eq!(coordinator.text(-1), None);
}

#[test]
fn registering_twice_is_refused() {
    let mut first = MultiBar::new();
    let mut second = MultiBar::new();
    let mut bar = Bar::new(None);
    assert_eq!(first.register(&mut bar), Ok(0));
    assert_eq!(first.register(&mut bar), Err(RegisterError::AlreadyLinked));
    assert_eq!(second.register(&mut bar), Err(RegisterError::AlreadyLinked));
    assert_eq!(bar.row(), 0);
    assert_eq!(first.rows(), 1);
    assert_eq!(second.rows(), 0);
    assert_eq!(second.phase(), Phase::Uninitialized);
}

#[test]
fn registering_after_shutdown_is_refused() {
    let mut coordinator = with_rows(1);
    coordinator.drain();
    let mut bar = Bar::new(None);
    assert_eq!(coordinator.register(&mut bar), Err(RegisterError::ShutDown));
    assert_eq!(bar.row(), -1);
    assert!(!bar.internal().linked());
    coordinator.close();
    assert_eq!(coordinator.register(&mut bar), Err(RegisterError::ShutDown));
    assert_eq!(coordinator.rows(), 1);
}

#[test]
fn registering_beyond_the_last_row_is_refused() {
    let mut coordinator = with_rows(MAX_ROWS - 1);
    let mut last = Bar::new(None);
    assert_eq!(coordinator.register(&mut last), Ok(i16::MAX));
    let mut late = Bar::new(None);
    assert_eq!(coordinator.register(&mut late), Err(RegisterError::Full));
    assert_eq!(late.row(), -1);
    assert_eq!(coordinator.rows(), MAX_ROWS);
}

#[test]
fn rows_are_not_given_out_again() {
    let mut coordinator = MultiBar::new();
    let mut first = Bar::new(Some(1));
    coordinator.register(&mut first).unwrap();
    first.update(1, 0);
    let farewell = first.finish();
    if let Redraw::Channel(messages) = farewell {
        for m in messages {
            coordinator.apply(m);
        }
    }
    drop(first);
    let mut second = Bar::new(Some(1));
    assert_eq!(coordinator.register(&mut second), Ok(1));
}

#[test]
fn draw_goes_down_to_the_row_and_back() {
    assert_eq!(draw_ops(3, String::from("abc")), drawing(3, "abc"));
    assert_eq!(draw_ops(0, String::new()), drawing(0, ""));
}

#[test]
fn message_is_drawn_on_its_row_only() {
    let mut coordinator = with_rows(3);
    coordinator.apply(message(0, "zero", false));
    coordinator.apply(message(2, "two", false));
    assert_eq!(coordinator.apply(message(1, "one", false)), drawing(1, "one"));
    assert_eq!(coordinator.text(0).unwrap(), "zero");
    assert_eq!(coordinator.text(1).unwrap(), "one");
    assert_eq!(coordinator.text(2).unwrap(), "two");
}

#[test]
fn unchanged_text_is_drawn_only_when_forced() {
    let mut coordinator = with_rows(1);
    assert_eq!(coordinator.apply(message(0, "same", false)), drawing(0, "same"));
    assert_eq!(coordinator.apply(message(0, "same", false)), Vec::new());
    assert_eq!(coordinator.apply(message(0, "same", true)), drawing(0, "same"));
    assert_eq!(coordinator.apply(message(0, "", false)), drawing(0, ""));
    assert_eq!(coordinator.apply(message(0, "", false)), Vec::new());
}

#[test]
fn message_for_an_unknown_row_is_dropped() {
    let mut coordinator = with_rows(2);
    coordinator.apply(message(0, "zero", false));
    assert_eq!(coordinator.apply(message(2, "lost", true)), Vec::new());
    assert_eq!(coordinator.apply(message(-1, "lost", true)), Vec::new());
    assert_eq!(coordinator.apply(message(i16::MAX, "lost", true)), Vec::new());
    assert_eq!(coordinator.text(0).unwrap(), "zero");
    assert_eq!(coordinator.text(1).unwrap(), "");
    assert_eq!(coordinator.rows(), 2);
}

#[test]
fn message_before_the_first_registration_is_dropped() {
    let mut coordinator = MultiBar::new();
    assert_eq!(coordinator.apply(message(0, "early", true)), Vec::new());
    assert_eq!(coordinator.phase(), Phase::Uninitialized);
}

#[test]
fn draining_coordinator_still_applies_messages() {
    let mut coordinator = with_rows(2);
    coordinator.drain();
    assert_eq!(coordinator.phase(), Phase::Draining);
    assert_eq!(coordinator.apply(message(1, "late", false)), drawing(1, "late"));
    assert_eq!(coordinator.text(1).unwrap(), "late");
}

#[test]
fn closing_draws_every_row_and_moves_below_the_block() {
    let mut coordinator = with_rows(3);
    coordinator.apply(message(0, "a", false));
    coordinator.apply(message(2, "c", false));
    coordinator.drain();
    let mut expected = Vec::new();
    expected.extend(drawing(0, "a"));
    expected.extend(drawing(1, ""));
    expected.extend(drawing(2, "c"));
    expected.push(TermOp::Feed(3));
    assert_eq!(coordinator.close(), expected);
    assert_eq!(coordinator.phase(), Phase::Closed);
    assert_eq!(coordinator.text(0).unwrap(), "a");
}

#[test]
fn closing_needs_a_draining_coordinator() {
    let mut coordinator = with_rows(1);
    assert_eq!(coordinator.close(), Vec::new());
    assert_eq!(coordinator.phase(), Phase::Active);
    coordinator.drain();
    coordinator.close();
    assert_eq!(coordinator.close(), Vec::new());
    assert_eq!(coordinator.phase(), Phase::Closed);
}

#[test]
fn closed_coordinator_drops_messages() {
    let mut coordinator = with_rows(1);
    coordinator.apply(message(0, "last", false));
    coordinator.drain();
    coordinator.close();
    assert_eq!(coordinator.apply(message(0, "late", true)), Vec::new());
    assert_eq!(coordinator.text(0).unwrap(), "last");
    coordinator.drain();
    assert_eq!(coordinator.phase(), Phase::Closed);
}

#[test]
fn coordinator_without_indicators_closes_quietly() {
    let mut coordinator = MultiBar::new();
    coordinator.drain();
    assert_eq!(coordinator.phase(), Phase::Draining);
    assert_eq!(coordinator.close(), vec![TermOp::Feed(0)]);
    assert_eq!(coordinator.phase(), Phase::Closed);
}

#[test]
fn write_of_one_indicator_leaves_the_other_rows() {
    let mut coordinator = MultiBar::new();
    let mut top = Bar::new(Some(4)).with_width(2);
    let mut bottom = Bar::new(Some(4)).with_width(2);
    coordinator.register(&mut top).unwrap();
    coordinator.register(&mut bottom).unwrap();
    for bar in [&mut top, &mut bottom] {
        if let (true, Redraw::Channel(messages)) = bar.update(1, 0) {
            for m in messages {
                coordinator.apply(m);
            }
        }
    }
    let top_line = coordinator.text(0).unwrap();
    assert_eq!(top_line, " 25%|\u{258C} | 1/4 [00:00<?, ?it/s]");
    let posted = match bottom.write(String::from("note")) {
        Redraw::Channel(messages) => messages,
        other => panic!("unexpected {:?}", other),
    };
    assert_eq!(posted.len(), 2);
    let mut posted = posted.into_iter();
    assert_eq!(
        coordinator.apply(posted.next().unwrap()),
        drawing(1, "note")
    );
    assert_eq!(coordinator.text(1).unwrap(), "note");
    assert_eq!(coordinator.text(0).unwrap(), top_line);
    assert_eq!(
        coordinator.apply(posted.next().unwrap()),
        drawing(1, " 25%|\u{258C} | 1/4 [00:00<?, ?it/s]")
    );
    assert_eq!(coordinator.text(1).unwrap(), bottom.render());
    assert_eq!(coordinator.text(0).unwrap(), top_line);
}

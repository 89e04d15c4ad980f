use kdam::std_bar::append_utf8;
use kdam::{Bar, BarExt, BarInternal, InputError, Message, Ramp, Redraw, Reply, TermOp};

fn shown(text: &str) -> Redraw {
    Redraw::Terminal(vec![
        TermOp::Return,
        TermOp::ClearLine,
        TermOp::Print(String::from(text)),
    ])
}

fn linked(row: usize) -> Bar {
    let mut coordinator = kdam::MultiBar::new();
    let mut bar = Bar::new(Some(4)).with_width(2);
    for _ in 0..row {
        coordinator.register(&mut Bar::new(None)).unwrap();
    }
    coordinator.register(&mut bar).unwrap();
    bar
}

#[test]
fn new_indicator_is_unstarted_and_unassigned() {
    let bar = Bar::new(Some(9));
    let state = bar.internal();
    assert!(!state.started());
    assert_eq!(state.start_instant(), 0);
    assert_eq!(state.elapsed_time(), 0);
    assert_eq!(state.rate(), None);
    assert_eq!(state.count(), 0);
    assert_eq!(state.total(), Some(9));
    assert_eq!(state.configured_width(), -1);
    assert_eq!(state.columns(), 80);
    assert_eq!(state.row(), -1);
    assert!(!state.linked());
    assert_eq!(state.ramp().len(), 8);
}

#[test]
fn default_state_has_no_total() {
    let state = BarInternal::default();
    assert!(!state.started());
    assert_eq!(state.count(), 0);
    assert_eq!(state.total(), None);
    assert_eq!(state.row(), -1);
    assert_eq!(state.configured_width(), -1);
    assert_eq!(state.ramp().cell(0), Some(' '));
    assert_eq!(state.ramp().cell(7), Some('\u{2589}'));
    assert_eq!(state.ramp().cell(8), None);
    assert_eq!(state.ramp().solid(), '\u{2588}');
    assert_eq!(state.ramp().blank(), ' ');
}

#[test]
fn first_update_starts_the_timer_and_draws() {
    let mut bar = Bar::new(Some(100)).with_width(10);
    let (redrawn, out) = bar.update(1, 1_000);
    assert!(redrawn);
    assert_eq!(out, shown("  1%|          | 1/100 [00:00<?, ?it/s]"));
    assert!(bar.internal().started());
    assert_eq!(bar.internal().start_instant(), 1_000);
    assert_eq!(bar.internal().elapsed_time(), 0);
    assert_eq!(bar.count(), 1);
}

#[test]
fn update_within_the_interval_is_recorded_but_not_drawn() {
    let mut bar = Bar::new(Some(100)).with_width(10);
    bar.update(1, 1_000);
    let (redrawn, out) = bar.update(1, 1_050);
    assert!(!redrawn);
    assert_eq!(out, Redraw::Idle);
    assert_eq!(bar.count(), 2);
    assert_eq!(bar.internal().elapsed_time(), 50);
    assert_eq!(bar.internal().rate(), Some(40_000));
}

#[test]
fn update_after_the_interval_draws_again() {
    let mut bar = Bar::new(Some(100)).with_width(10);
    bar.update(1, 1_000);
    bar.update(1, 1_050);
    let (redrawn, out) = bar.update(1, 1_100);
    assert!(redrawn);
    assert_eq!(bar.internal().rate(), Some(34_000));
    assert_eq!(
        out,
        shown("  3%|\u{258E}         | 3/100 [00:00<00:02, 34.00it/s]")
    );
}

#[test]
fn update_below_the_least_change_is_not_drawn() {
    let mut bar = Bar::new(Some(100)).with_throttle(0, 5);
    assert!(bar.update(1, 0).0);
    assert!(!bar.update(4, 10).0);
    assert_eq!(bar.count(), 5);
    assert!(bar.update(1, 20).0);
    assert_eq!(bar.count(), 6);
    assert!(!bar.update_to(2, 30).0);
    assert!(bar.update_to(1, 40).0);
}

#[test]
fn update_needs_both_interval_and_change() {
    let mut bar = Bar::new(Some(100)).with_throttle(100, 5);
    assert!(bar.update(1, 0).0);
    assert!(!bar.update(10, 50).0);
    assert!(!bar.update_to(3, 200).0);
    assert!(bar.update_to(20, 200).0);
}

#[test]
fn update_by_zero_changes_nothing_and_is_not_drawn() {
    let mut bar = Bar::new(Some(100)).with_throttle(0, 0);
    bar.update(3, 0);
    bar.update(3, 500);
    let rate = bar.internal().rate();
    assert_eq!(rate, Some(12_000));
    let (redrawn, out) = bar.update(0, 9_000);
    assert!(!redrawn);
    assert_eq!(out, Redraw::Idle);
    assert_eq!(bar.count(), 6);
    assert_eq!(bar.internal().rate(), rate);
    assert_eq!(bar.internal().elapsed_time(), 9_000);
}

#[test]
fn update_by_zero_on_a_new_indicator_starts_the_timer_only() {
    let mut bar = Bar::new(None);
    let (redrawn, out) = bar.update(0, 77);
    assert!(!redrawn);
    assert_eq!(out, Redraw::Idle);
    assert!(bar.internal().started());
    assert_eq!(bar.internal().start_instant(), 77);
    assert_eq!(bar.count(), 0);
    assert_eq!(bar.internal().rate(), None);
}

#[test]
fn refresh_draws_where_an_update_by_zero_does_not() {
    let mut bar = Bar::new(Some(10)).with_width(2);
    bar.update(5, 0);
    assert_eq!(bar.update(0, 10).1, Redraw::Idle);
    assert_eq!(
        bar.refresh(10),
        shown(" 50%|\u{2588} | 5/10 [00:00<?, ?it/s]")
    );
}

#[test]
fn update_to_sets_the_count() {
    let mut bar = Bar::new(Some(100));
    bar.update_to(40, 0);
    assert_eq!(bar.count(), 40);
    bar.update_to(10, 1_000);
    assert_eq!(bar.count(), 10);
    let (redrawn, _) = bar.update_to(10, 2_000);
    assert!(!redrawn);
    assert_eq!(bar.count(), 10);
}

#[test]
fn elapsed_time_never_goes_back() {
    let mut bar = Bar::new(None);
    bar.update(1, 1_000);
    bar.update(1, 1_500);
    assert_eq!(bar.internal().elapsed_time(), 500);
    bar.update(1, 1_200);
    assert_eq!(bar.internal().elapsed_time(), 500);
    bar.update(1, 10);
    assert_eq!(bar.internal().elapsed_time(), 500);
    bar.refresh(900);
    assert_eq!(bar.internal().elapsed_time(), 500);
    bar.refresh(1_501);
    assert_eq!(bar.internal().elapsed_time(), 501);
}

#[test]
fn rate_is_iterations_per_second_in_thousandths() {
    let mut third = Bar::new(None);
    third.update(1, 0);
    third.update(0, 3);
    assert_eq!(third.internal().rate(), None);
    third.update_to(1, 3);
    assert_eq!(third.internal().rate(), None);
    third.update_to(2, 3);
    assert_eq!(third.internal().rate(), Some(666_666));
    let mut fast = Bar::new(None);
    fast.update(usize::MAX, 0);
    fast.update_to(0, 1);
    assert_eq!(fast.internal().rate(), Some(0));
    let mut limit = Bar::new(None);
    limit.update_to(0, 0);
    limit.update_to(usize::MAX, 1);
    assert_eq!(
        limit.internal().rate(),
        Some(usize::MAX as u128 * 1_000_000)
    );
}

#[test]
fn rate_weighs_a_new_sample_by_the_smoothing() {
    let rates = |smoothing: u16| {
        let mut bar = Bar::new(None).with_smoothing(smoothing);
        bar.update(40, 0);
        bar.update(0, 1_000);
        bar.update_to(41, 1_000);
        let first = bar.internal().rate();
        bar.update_to(61, 2_000);
        (first, bar.internal().rate())
    };
    assert_eq!(rates(300), (Some(41_000), Some(34_700)));
    assert_eq!(rates(0), (Some(41_000), Some(41_000)));
    assert_eq!(rates(1_000), (Some(41_000), Some(20_000)));
    assert_eq!(rates(500), (Some(41_000), Some(30_500)));
}

#[test]
fn update_to_below_the_last_redraw_counts_the_distance() {
    let mut bar = Bar::new(None).with_throttle(0, 7);
    assert!(bar.update_to(10, 0).0);
    assert!(!bar.update_to(4, 0).0);
    assert!(bar.update_to(3, 0).0);
    assert!(!bar.update_to(9, 0).0);
    assert!(bar.update_to(10, 0).0);
}

#[test]
fn rate_takes_in_what_was_gained_since_the_last_sample() {
    let mut bar = Bar::new(None).with_smoothing(500);
    bar.update(4, 0);
    assert_eq!(bar.internal().rate(), None);
    bar.update(4, 0);
    assert_eq!(bar.internal().rate(), None);
    bar.update(2, 1_000);
    assert_eq!(bar.internal().rate(), Some(10_000));
    bar.update(2, 1_000);
    assert_eq!(bar.internal().rate(), Some(10_000));
    bar.update(2, 2_000);
    assert_eq!(bar.internal().rate(), Some(7_000));
}

#[test]
fn smoothing_above_one_is_held_at_one() {
    let mut bar = Bar::new(None).with_smoothing(5_000);
    bar.update(1, 0);
    bar.update(1, 1_000);
    bar.update(8, 2_000);
    assert_eq!(bar.internal().rate(), Some(8_000));
}

#[test]
fn reset_after_update_keeps_the_configuration() {
    let ramp = Ramp::new(vec!['.', '+'], '#', '.').unwrap();
    let mut bar = Bar::new(Some(10))
        .with_width(4)
        .with_ramp(ramp)
        .with_description(String::from("job"));
    bar.set_columns(120);
    bar.update(5, 100);
    bar.update(2, 900);
    assert_eq!(bar.render(), "job:  70%|##+.| 7/10 [00:00<00:00, 8.75it/s]");
    bar.reset(Some(20));
    assert_eq!(bar.count(), 0);
    assert_eq!(bar.total(), Some(20));
    assert!(!bar.internal().started());
    assert_eq!(bar.internal().elapsed_time(), 0);
    assert_eq!(bar.internal().rate(), None);
    assert_eq!(bar.internal().configured_width(), 4);
    assert_eq!(bar.internal().columns(), 120);
    assert_eq!(bar.internal().ramp().len(), 2);
    assert_eq!(bar.internal().ramp().solid(), '#');
    assert_eq!(bar.render(), "job:   0%|....| 0/20 [00:00<?, ?it/s]");
}

#[test]
fn reset_without_total_keeps_the_total() {
    let mut bar = Bar::new(Some(10));
    bar.update(5, 100);
    bar.reset(None);
    assert_eq!(bar.total(), Some(10));
    assert_eq!(bar.count(), 0);
}

#[test]
fn reset_restarts_the_timer_at_the_next_update() {
    let mut bar = Bar::new(Some(10));
    bar.update(5, 100);
    bar.update(1, 4_100);
    assert_eq!(bar.internal().elapsed_time(), 4_000);
    bar.reset(None);
    let (redrawn, _) = bar.update(1, 9_000);
    assert!(redrawn);
    assert_eq!(bar.internal().start_instant(), 9_000);
    assert_eq!(bar.internal().elapsed_time(), 0);
}

#[test]
fn clear_erases_the_line_and_keeps_the_counters() {
    let mut bar = Bar::new(Some(10));
    bar.update(5, 100);
    let before = bar.render();
    assert_eq!(
        bar.clear(),
        Redraw::Terminal(vec![TermOp::Return, TermOp::ClearLine])
    );
    assert_eq!(bar.count(), 5);
    assert_eq!(bar.render(), before);
}

#[test]
fn write_prints_the_text_and_then_the_bar() {
    let mut bar = Bar::new(Some(4)).with_width(2);
    bar.update(1, 0);
    let out = bar.write(String::from("step one done"));
    assert_eq!(
        out,
        Redraw::Terminal(vec![
            TermOp::Return,
            TermOp::ClearLine,
            TermOp::Print(String::from("step one done")),
            TermOp::Feed(1),
            TermOp::Return,
            TermOp::ClearLine,
            TermOp::Print(String::from(" 25%|\u{258C} | 1/4 [00:00<?, ?it/s]")),
        ])
    );
    assert_eq!(bar.count(), 1);
}

#[test]
fn write_counts_as_a_redraw_for_the_throttle() {
    let mut bar = Bar::new(Some(100)).with_throttle(100, 1);
    bar.update(1, 0);
    bar.update(1, 10);
    bar.update(0, 150);
    bar.write(String::from("note"));
    assert!(!bar.update(1, 200).0);
    assert!(bar.update(1, 250).0);
}

#[test]
fn input_puts_the_prompt_in_place_of_the_bar() {
    let mut bar = Bar::new(Some(4));
    assert_eq!(bar.input(String::from("name? ")), shown("name? "));
}

#[test]
fn input_done_returns_the_line_and_redraws() {
    let mut bar = Bar::new(Some(4)).with_width(2);
    bar.update(2, 0);
    let got = bar.input_done(Reply::Line(String::from("Ada\n")));
    assert_eq!(
        got,
        Ok((
            String::from("Ada\n"),
            shown(" 50%|\u{2588} | 2/4 [00:00<?, ?it/s]")
        ))
    );
}

#[test]
fn input_done_reports_an_exhausted_stream() {
    let mut bar = Bar::new(Some(4));
    assert_eq!(
        bar.input_done(Reply::Line(String::new())),
        Err(InputError::Exhausted)
    );
}

#[test]
fn input_done_reports_a_failed_read() {
    let mut bar = Bar::new(Some(4));
    assert_eq!(bar.input_done(Reply::Failed), Err(InputError::Failed));
}

#[test]
fn write_to_with_a_count_is_update_to_with_a_sink() {
    let mut shown_bar = Bar::new(Some(100)).with_width(10);
    let mut sunk_bar = Bar::new(Some(100)).with_width(10);
    let steps: [(usize, u64); 6] = [(1, 0), (2, 50), (3, 100), (3, 300), (50, 320), (60, 400)];
    for (n, now) in steps {
        let (redrawn, _) = shown_bar.update_to(n, now);
        let mut sink = vec![b'>'];
        let written = sunk_bar.write_to(&mut sink, Some(n), now);
        assert_eq!(written, redrawn);
        if written {
            let mut expected = vec![b'>'];
            expected.extend_from_slice(shown_bar.render().as_bytes());
            assert_eq!(sink, expected);
        } else {
            assert_eq!(sink, vec![b'>']);
        }
        assert_eq!(sunk_bar.render(), shown_bar.render());
        assert_eq!(sunk_bar.count(), shown_bar.count());
        assert_eq!(sunk_bar.internal().rate(), shown_bar.internal().rate());
    }
}

#[test]
fn write_to_writes_the_line_as_utf8() {
    let mut bar = Bar::new(Some(2)).with_width(2);
    let mut sink = Vec::new();
    assert!(bar.write_to(&mut sink, Some(1), 0));
    assert_eq!(
        String::from_utf8(sink).unwrap(),
        " 50%|\u{2588} | 1/2 [00:00<?, ?it/s]"
    );
}

#[test]
fn write_to_without_a_count_writes_the_present_line() {
    let mut bar = Bar::new(Some(2)).with_width(2);
    bar.update(1, 0);
    let mut sink = Vec::new();
    assert!(bar.write_to(&mut sink, None, 5_000));
    assert_eq!(sink, bar.render().into_bytes());
    assert_eq!(bar.count(), 1);
    assert_eq!(bar.internal().elapsed_time(), 0);
    assert!(bar.write_to(&mut sink, None, 5_000));
    assert_eq!(sink.len(), 2 * bar.render().len());
}

#[test]
fn append_utf8_keeps_what_the_sink_holds() {
    let mut sink = vec![1u8, 2];
    append_utf8(&mut sink, &String::from("a\u{2588}"));
    assert_eq!(sink, vec![1, 2, b'a', 0xE2, 0x96, 0x88]);
}

#[test]
fn finish_leaves_the_bar_and_ends_the_line() {
    let mut bar = Bar::new(Some(2)).with_width(2);
    bar.update(2, 0);
    assert_eq!(
        bar.finish(),
        Redraw::Terminal(vec![
            TermOp::Return,
            TermOp::ClearLine,
            TermOp::Print(String::from("100%|\u{2588}\u{2588}| 2/2 [00:00<?, ?it/s]")),
            TermOp::ShowCursor,
            TermOp::Feed(1),
        ])
    );
}

#[test]
fn finish_erases_a_bar_that_is_not_to_stay() {
    let mut bar = Bar::new(Some(2)).with_leave(false);
    bar.update(2, 0);
    assert_eq!(
        bar.finish(),
        Redraw::Terminal(vec![
            TermOp::Return,
            TermOp::ClearLine,
            TermOp::Print(String::new()),
            TermOp::ShowCursor,
            TermOp::Feed(1),
        ])
    );
}

#[test]
fn linked_indicator_posts_messages_for_its_row() {
    let mut bar = linked(2);
    assert_eq!(bar.row(), 2);
    assert!(bar.internal().linked());
    let (redrawn, out) = bar.update(1, 0);
    assert!(redrawn);
    assert_eq!(
        out,
        Redraw::Channel(vec![Message {
            row: 2,
            text: String::from(" 25%|\u{258C} | 1/4 [00:00<?, ?it/s]"),
            force: false,
        }])
    );
    assert_eq!(
        bar.refresh(0),
        Redraw::Channel(vec![Message {
            row: 2,
            text: String::from(" 25%|\u{258C} | 1/4 [00:00<?, ?it/s]"),
            force: true,
        }])
    );
    assert_eq!(
        bar.clear(),
        Redraw::Channel(vec![Message {
            row: 2,
            text: String::new(),
            force: true,
        }])
    );
}

#[test]
fn linked_indicator_writes_text_before_its_bar() {
    let mut bar = linked(1);
    bar.update(2, 0);
    assert_eq!(
        bar.write(String::from("note")),
        Redraw::Channel(vec![
            Message {
                row: 1,
                text: String::from("note"),
                force: true,
            },
            Message {
                row: 1,
                text: String::from(" 50%|\u{2588} | 2/4 [00:00<?, ?it/s]"),
                force: true,
            },
        ])
    );
}

#[test]
fn linked_indicator_finishes_with_a_forced_message() {
    let mut bar = linked(0);
    bar.update(4, 0);
    assert_eq!(
        bar.finish(),
        Redraw::Channel(vec![Message {
            row: 0,
            text: String::from("100%|\u{2588}\u{2588}| 4/4 [00:00<?, ?it/s]"),
            force: true,
        }])
    );
    let gone = bar.with_leave(false);
    assert_eq!(
        gone.finish(),
        Redraw::Channel(vec![Message {
            row: 0,
            text: String::new(),
            force: true,
        }])
    );
}

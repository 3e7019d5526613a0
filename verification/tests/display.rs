use orions_hands::display::{Bounce, Hover, Panel, MAX_EXTENT};
use orions_hands::signal::Signal;

#[test]
fn panel_starts_lit_without_caps() {
    assert_eq!(Panel::new(), Panel { lit: true, caps_on: false });
}

#[test]
fn panel_follows_the_words_it_reads() {
    let mut panel = Panel::new();
    assert_eq!(panel.receive(0xCC), Some(Signal::CapsOn));
    assert_eq!(panel, Panel { lit: true, caps_on: true });
    assert_eq!(panel.receive(0xDD), Some(Signal::DisplayOff));
    assert_eq!(panel, Panel { lit: false, caps_on: true });
    assert_eq!(panel.receive(0xDD), Some(Signal::DisplayOff));
    assert_eq!(panel, Panel { lit: false, caps_on: true });
    assert_eq!(panel.receive(0xCD), Some(Signal::CapsOff));
    assert_eq!(panel.receive(0xDE), Some(Signal::DisplayOn));
    assert_eq!(panel, Panel::new());
}

#[test]
fn panel_ignores_words_without_a_signal() {
    let mut panel = Panel { lit: false, caps_on: true };
    assert_eq!(panel.receive(0), None);
    assert_eq!(panel.receive(0xDE00), None);
    assert_eq!(panel, Panel { lit: false, caps_on: true });
}

#[test]
fn ball_starts_in_the_middle() {
    let x = Bounce::across(64, 5, true).unwrap();
    let y = Bounce::across(128, 5, false).unwrap();
    assert_eq!(x.position(), 32);
    assert_eq!(y.position(), 64);
}

#[test]
fn ball_needs_room() {
    assert!(Bounce::across(12, 5, true).is_none());
    assert!(Bounce::across(13, 5, true).is_some());
    assert!(Bounce::across(0, 0, true).is_none());
    assert!(Bounce::across(2, 0, true).is_none());
    assert!(Bounce::across(3, 0, true).is_some());
    assert!(Bounce::across(64, -1, true).is_none());
    assert!(Bounce::across(-64, 5, true).is_none());
    assert!(Bounce::across(MAX_EXTENT, 5, true).is_some());
    assert!(Bounce::across(MAX_EXTENT + 1, 5, true).is_none());
    assert!(Bounce::across(i32::MAX, 5, false).is_none());
}

#[test]
fn ball_turns_round_one_pixel_from_the_edge() {
    let mut x = Bounce::across(64, 5, true).unwrap();
    let mut seen = Vec::new();
    for _ in 0..60 {
        x.advance();
        seen.push(x.position());
    }
    let mut expected = Vec::new();
    for p in 33..=58 {
        expected.push(p);
    }
    for p in (24..=57).rev() {
        expected.push(p);
    }
    assert_eq!(seen, expected);
}

#[test]
fn ball_stays_on_the_screen() {
    let mut x = Bounce::across(64, 5, true).unwrap();
    let mut y = Bounce::across(128, 5, false).unwrap();
    let (mut least_x, mut most_x, mut least_y, mut most_y) = (32, 32, 64, 64);
    for _ in 0..1000 {
        x.advance();
        y.advance();
        least_x = least_x.min(x.position());
        most_x = most_x.max(x.position());
        least_y = least_y.min(y.position());
        most_y = most_y.max(y.position());
    }
    assert_eq!((least_x, most_x), (5, 58));
    assert_eq!((least_y, most_y), (5, 122));
}

#[test]
fn arrow_hovers_between_rest_and_reach() {
    let mut hover = Hover::new(9).unwrap();
    assert_eq!(hover.travelled(), 0);
    let mut offset = 0;
    let mut steps = Vec::new();
    let mut offsets = Vec::new();
    for _ in 0..44 {
        let step = hover.advance();
        offset += step;
        steps.push(step);
        offsets.push(offset);
        assert!(-10 <= hover.travelled() && hover.travelled() <= 1);
    }
    let mut expected = vec![-1; 9];
    expected.extend(vec![1; 11]);
    expected.extend(vec![-1; 11]);
    expected.extend(vec![1; 11]);
    expected.extend(vec![-1; 2]);
    assert_eq!(steps, expected);
    assert_eq!(offsets.iter().min(), Some(&-9));
    assert_eq!(offsets.iter().max(), Some(&2));
}

#[test]
fn arrow_needs_a_sensible_reach() {
    assert!(Hover::new(-1).is_none());
    assert!(Hover::new(0).is_some());
    assert!(Hover::new(MAX_EXTENT).is_some());
    assert!(Hover::new(MAX_EXTENT + 1).is_none());
    let mut hover = Hover::new(0).unwrap();
    assert_eq!(hover.advance(), 1);
    assert_eq!(hover.travelled(), -1);
    assert_eq!(hover.advance(), 1);
    assert_eq!(hover.travelled(), 0);
    assert_eq!(hover.advance(), -1);
    assert_eq!(hover.travelled(), 1);
}

use type_driven_api_design::bar::{bounded_line_text, unbounded_line};
use type_driven_api_design::progress::{Progress, ProgressIteratorExt};
use type_driven_api_design::progress_three::{ProgressThree, ProgressThreeIteratorExt};
use type_driven_api_design::progress_two::{ProgressTwo, ProgressTwoIteratorExt};

#[test]
fn unbounded_line_is_one_star_per_step() {
    assert_eq!(unbounded_line(0), "");
    assert_eq!(unbounded_line(3), "***");
}

#[test]
fn bounded_line_pads_the_remainder() {
    assert_eq!(bounded_line_text('[', ']', 2, 5), "[**   ]");
    assert_eq!(bounded_line_text('<', '>', 0, 0), "<>");
    assert_eq!(bounded_line_text('(', ')', 3, 3), "(***)");
}

#[test]
fn progress_counts_steps_and_yields_items() {
    let v = vec![1, 2, 3];
    let mut p = Progress::new(v.iter());
    assert_eq!(p.count(), 0);
    assert_eq!(p.line(), "");
    assert_eq!(p.next(), Some(&1));
    assert_eq!(p.line(), "*");
    assert_eq!(p.next(), Some(&2));
    assert_eq!(p.next(), Some(&3));
    assert_eq!(p.line(), "***");
    assert_eq!(p.next(), None);
    assert_eq!(p.count(), 4);
}

#[test]
fn progress_extension_starts_at_zero() {
    let v = vec!['a', 'b'];
    let mut p = v.iter().progress();
    assert_eq!(p.count(), 0);
    assert_eq!(p.next(), Some(&'a'));
    assert_eq!(p.count(), 1);
}

#[test]
fn progress_two_without_bound_draws_bare_stars() {
    let mut p = ProgressTwo::new(0..);
    assert_eq!(p.bound(), None);
    assert_eq!(p.next(), Some(0));
    assert_eq!(p.next(), Some(1));
    assert_eq!(p.line(), "**");
}

#[test]
fn progress_two_with_bound_takes_the_length() {
    let v = vec![10, 20, 30];
    let mut p = v.iter().progress_two().with_bound();
    assert_eq!(p.bound(), Some(3));
    let mut lines = Vec::new();
    let mut items = Vec::new();
    loop {
        lines.push(p.line());
        match p.next() {
            Some(n) => items.push(*n),
            None => break,
        }
    }
    assert_eq!(lines, vec!["[   ]", "[*  ]", "[** ]", "[***]"]);
    assert_eq!(items, vec![10, 20, 30]);
}

#[test]
fn progress_two_bound_of_a_range() {
    let p = (0..4).progress_two().with_bound();
    assert_eq!(p.bound(), Some(4));
    assert_eq!(p.line(), "[    ]");
}

#[test]
fn progress_three_unbounded_draws_bare_stars() {
    let mut p = ProgressThree::new(vec![1, 2].into_iter());
    assert_eq!(p.line(), "");
    assert_eq!(p.next(), Some(1));
    assert_eq!(p.line(), "*");
}

#[test]
fn progress_three_bounded_uses_square_brackets() {
    let v = vec![1, 2, 3];
    let p = v.iter().progress_three().with_bound_three();
    assert_eq!(p.state_ref().bound(), 3);
    assert_eq!(p.state_ref().delims(), ('[', ']'));
    assert_eq!(p.line(), "[   ]");
}

#[test]
fn progress_three_with_delims_changes_the_frame() {
    let v = vec![1, 2, 3];
    let mut p = v
        .iter()
        .progress_three()
        .with_bound_three()
        .with_delims(('<', '>'));
    assert_eq!(p.state_ref().delims(), ('<', '>'));
    let mut lines = Vec::new();
    let mut sum = 0;
    loop {
        lines.push(p.line());
        match p.next() {
            Some(n) => sum += *n,
            None => break,
        }
    }
    assert_eq!(lines, vec!["<   >", "<*  >", "<** >", "<***>"]);
    assert_eq!(sum, 6);
    assert_eq!(p.count(), 4);
}

#[test]
fn progress_three_bound_after_steps_keeps_the_count() {
    let mut p = (0..5).progress_three();
    assert_eq!(p.next(), Some(0));
    let p = p.with_bound_three();
    assert_eq!(p.count(), 1);
    assert_eq!(p.state_ref().bound(), 4);
    assert_eq!(p.line(), "[*   ]");
}

#[test]
fn progress_two_bounded_by_takes_the_given_total() {
    let mut p = (0..).progress_two().bounded_by(3);
    assert_eq!(p.bound(), Some(3));
    assert_eq!(p.next(), Some(0));
    assert_eq!(p.line(), "[*  ]");
}

#[test]
fn progress_three_bounded_by_takes_the_given_total() {
    let mut p = (0..).progress_three().bounded_by(2);
    assert_eq!(p.state_ref().bound(), 2);
    assert_eq!(p.state_ref().delims(), ('[', ']'));
    assert_eq!(p.next(), Some(0));
    assert_eq!(p.line(), "[* ]");
    let p = p.with_delims(('(', ')'));
    assert_eq!(p.line(), "(* )");
}

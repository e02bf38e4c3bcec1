use movey::backfill::{BackfillAction, BackfillEvent, SlugBackfill};
use movey::naming::slug_of;

type E = String;

#[test]
fn a_free_slug_is_set_at_once() {
    let (s, a) = SlugBackfill::new("Move Stdlib");
    assert!(matches!(a, BackfillAction::CountSlug { ref slug } if slug == "move-stdlib"));
    let (s, a) = s.step::<E>(BackfillEvent::Count(Ok(0)));
    assert!(matches!(a, BackfillAction::SetSlug { ref slug } if slug == "move-stdlib"));
    let (_, a) = s.step::<E>(BackfillEvent::Updated);
    assert!(matches!(a, BackfillAction::Done));
}

#[test]
fn a_taken_slug_gets_a_suffix_on_the_first_slug() {
    let (s, _) = SlugBackfill::new("Move Stdlib");
    let (s, a) = s.step::<E>(BackfillEvent::Count(Ok(1)));
    assert!(matches!(a, BackfillAction::DrawSuffix));
    let (s, a) = s.step::<E>(BackfillEvent::Suffix(0));
    assert!(matches!(a, BackfillAction::CountSlug { ref slug } if slug == "move-stdlib-AAAA"));
    let (s, a) = s.step::<E>(BackfillEvent::Count(Err("db".to_string())));
    assert!(matches!(a, BackfillAction::DrawSuffix));
    let (s, a) = s.step::<E>(BackfillEvent::Suffix(1));
    assert!(matches!(a, BackfillAction::CountSlug { ref slug } if slug == "move-stdlib-BAAA"));
    let (_, a) = s.step::<E>(BackfillEvent::Count(Ok(0)));
    assert!(matches!(a, BackfillAction::SetSlug { ref slug } if slug == "move-stdlib-BAAA"));
}

#[test]
fn slugs_are_lower_case_words_joined_by_hyphens() {
    assert_eq!(slug_of("Hello, World!"), "hello-world");
    assert_eq!(slug_of("  spaced  out  "), "spaced-out");
    assert_eq!(slug_of("MoveStdlib"), "movestdlib");
}

use bk::confirm::{is_affirmative, is_whitespace};
use bk::uninstall::{prompt, report, start, step, Action, Event, Outcome, Stage};

#[test]
fn y_and_yes_say_yes() {
    for answer in ["y", "Y", "yes", "YES", "Yes", "yEs", "yeS"] {
        assert!(is_affirmative(answer));
    }
}

#[test]
fn white_space_around_the_answer_plays_no_part() {
    for answer in ["y\n", "yes\r\n", "  y  ", "\tYES\t", "\u{a0}y\u{3000}", " \n y \n "] {
        assert!(is_affirmative(answer));
    }
}

#[test]
fn every_other_answer_says_no() {
    for answer in [
        "", "\n", "   ", "n", "N", "no", "ye", "yess", "yy", "y es", "y e s", "yes please", "yep",
        "yeah", "ja", "1", "true", "\u{ff59}", "y\u{301}", "ye\u{17f}",
    ] {
        assert!(!is_affirmative(answer));
    }
}

#[test]
fn white_space_is_what_the_standard_library_calls_so() {
    for code in 0..0x11_0000u32 {
        if let Some(c) = char::from_u32(code) {
            assert_eq!(is_whitespace(c), c.is_whitespace());
        }
    }
}

#[test]
fn answers_are_read_as_trimmed_and_lowered() {
    for answer in ["y", "Y ", " yes", "Yes\n", "no", "", "k", "\u{212a}", "YE\u{17f}", "\u{130}"] {
        let lowered = answer.trim().to_lowercase();
        assert_eq!(is_affirmative(answer), lowered == "y" || lowered == "yes");
    }
}

#[test]
fn removal_starts_by_locating_the_program() {
    assert_eq!(start(), (Stage::Locating, Action::Locate));
}

#[test]
fn a_yes_leads_to_removal() {
    assert_eq!(step(Stage::Locating, &Event::Located), Some((Stage::Confirming, Action::Ask)));
    assert_eq!(
        step(Stage::Confirming, &Event::Answered("y\n")),
        Some((Stage::Removing, Action::Remove))
    );
    assert_eq!(
        step(Stage::Removing, &Event::Removed),
        Some((Stage::Finished, Action::Finish(Outcome::Uninstalled)))
    );
    assert_eq!(Outcome::Uninstalled.exit_code(), 0);
}

#[test]
fn any_other_answer_cancels() {
    for answer in ["n\n", "\n", "", "no", "maybe", "yes!"] {
        assert_eq!(
            step(Stage::Confirming, &Event::Answered(answer)),
            Some((Stage::Finished, Action::Finish(Outcome::Cancelled)))
        );
    }
    assert_eq!(Outcome::Cancelled.exit_code(), 0);
    assert!(!Outcome::Cancelled.is_error());
}

#[test]
fn nothing_is_removed_without_a_yes() {
    let events = [
        Event::Located,
        Event::Answered("n"),
        Event::Answered(""),
        Event::Removed,
        Event::Failed,
    ];
    for stage in [Stage::Locating, Stage::Confirming, Stage::Removing, Stage::Finished] {
        for event in &events {
            if let Some((_, action)) = step(stage, event) {
                assert_ne!(action, Action::Remove);
            }
        }
    }
    for stage in [Stage::Locating, Stage::Removing, Stage::Finished] {
        assert_eq!(step(stage, &Event::Answered("yes")), None);
    }
}

#[test]
fn failures_end_the_removal_with_exit_code_1() {
    assert_eq!(
        step(Stage::Locating, &Event::Failed),
        Some((Stage::Finished, Action::Finish(Outcome::PathUnknown)))
    );
    assert_eq!(
        step(Stage::Confirming, &Event::Failed),
        Some((Stage::Finished, Action::Finish(Outcome::AnswerUnread)))
    );
    assert_eq!(
        step(Stage::Removing, &Event::Failed),
        Some((Stage::Finished, Action::Finish(Outcome::RemovalFailed)))
    );
    for outcome in [Outcome::PathUnknown, Outcome::AnswerUnread, Outcome::RemovalFailed] {
        assert_eq!(outcome.exit_code(), 1);
        assert!(outcome.is_error());
    }
}

#[test]
fn events_out_of_turn_lead_nowhere() {
    assert_eq!(step(Stage::Locating, &Event::Removed), None);
    assert_eq!(step(Stage::Locating, &Event::Answered("y")), None);
    assert_eq!(step(Stage::Confirming, &Event::Located), None);
    assert_eq!(step(Stage::Confirming, &Event::Removed), None);
    assert_eq!(step(Stage::Removing, &Event::Located), None);
    for event in [Event::Located, Event::Answered("y"), Event::Removed, Event::Failed] {
        assert_eq!(step(Stage::Finished, &event), None);
    }
}

#[test]
fn the_prompt_names_the_path() {
    assert_eq!(prompt("/usr/local/bin/bk"), "Remove 'bk' from /usr/local/bin/bk? (y/N): ");
    assert_eq!(prompt(""), "Remove 'bk' from ? (y/N): ");
}

#[test]
fn outcomes_are_reported_in_words() {
    assert_eq!(
        report(Outcome::Uninstalled, "/bin/bk", ""),
        "\u{2713} Successfully uninstalled bk. Thank you for using it!"
    );
    assert_eq!(report(Outcome::Cancelled, "/bin/bk", ""), "Uninstall cancelled.");
    assert_eq!(report(Outcome::PathUnknown, "", "no such file"), "Error: no such file");
    assert_eq!(report(Outcome::AnswerUnread, "/bin/bk", "broken pipe"), "Error: broken pipe");
    assert_eq!(
        report(Outcome::RemovalFailed, "/bin/bk", "Permission denied (os error 13)"),
        "Error: Permission denied (os error 13)\nCould not remove /bin/bk. Try again with \
         elevated privileges, or remove the file by hand."
    );
}

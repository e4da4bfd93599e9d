use tesla_wallcon_monitor::abbreviation::{abbreviated, abbreviations, shortest_unique_prefix};
use tesla_wallcon_monitor::chars::{chars_of, chars_of_each};
use tesla_wallcon_monitor::command::{
    match_command, resolve, resolve_position, select, Command, ResolveError, COMMANDS,
};

const ALL: [&str; 4] = ["lifetime", "version", "vitals", "wifi_status"];

fn strings(items: &[&str]) -> Vec<String> {
    items.iter().map(|s| s.to_string()).collect()
}

#[test]
fn the_command_table() {
    assert_eq!(COMMANDS, ALL);
}

#[test]
fn a_shared_first_letter_is_ambiguous() {
    assert_eq!(
        resolve(&ALL, "v"),
        Err(ResolveError::Ambiguous {
            input: String::from("v"),
            matches: strings(&["version", "vitals"]),
        })
    );
}

#[test]
fn two_letters_tell_version_from_vitals() {
    assert_eq!(resolve(&ALL, "ve"), Ok("version"));
    assert_eq!(resolve(&ALL, "vi"), Ok("vitals"));
}

#[test]
fn an_input_that_begins_no_command_is_unknown() {
    assert_eq!(
        resolve(&ALL, "x"),
        Err(ResolveError::Unknown { input: String::from("x"), available: strings(&ALL) })
    );
}

#[test]
fn a_single_letter_resolves_where_it_is_unique() {
    assert_eq!(resolve(&ALL, "l"), Ok("lifetime"));
    assert_eq!(resolve(&ALL, "w"), Ok("wifi_status"));
}

#[test]
fn a_full_name_resolves_to_itself() {
    for name in ALL {
        assert_eq!(resolve(&ALL, name), Ok(name));
    }
}

#[test]
fn an_input_longer_than_the_name_is_unknown() {
    assert!(matches!(resolve(&ALL, "versions"), Err(ResolveError::Unknown { .. })));
}

#[test]
fn matching_is_case_sensitive() {
    assert!(matches!(resolve(&ALL, "V"), Err(ResolveError::Unknown { .. })));
}

#[test]
fn the_empty_input_matches_every_command() {
    assert_eq!(
        resolve(&ALL, ""),
        Err(ResolveError::Ambiguous { input: String::new(), matches: strings(&ALL) })
    );
    assert_eq!(resolve(&["version"], ""), Ok("version"));
}

#[test]
fn an_empty_set_knows_no_command() {
    assert_eq!(
        resolve(&[], "v"),
        Err(ResolveError::Unknown { input: String::from("v"), available: Vec::new() })
    );
}

#[test]
fn a_name_that_begins_another_is_ambiguous() {
    assert_eq!(
        resolve(&["ver", "version"], "ver"),
        Err(ResolveError::Ambiguous {
            input: String::from("ver"),
            matches: strings(&["ver", "version"]),
        })
    );
    assert_eq!(resolve(&["ver", "version"], "vers"), Ok("version"));
}

#[test]
fn candidates_keep_the_order_of_the_set() {
    assert_eq!(
        resolve(&["vitals", "lifetime", "version"], "v"),
        Err(ResolveError::Ambiguous {
            input: String::from("v"),
            matches: strings(&["vitals", "version"]),
        })
    );
}

#[test]
fn the_position_is_that_of_the_command_in_the_set() {
    assert_eq!(resolve_position(&ALL, "l"), Ok(0));
    assert_eq!(resolve_position(&ALL, "ve"), Ok(1));
    assert_eq!(resolve_position(&ALL, "vit"), Ok(2));
    assert_eq!(resolve_position(&ALL, "wifi_status"), Ok(3));
    assert!(resolve_position(&ALL, "v").is_err());
}

#[test]
fn names_beyond_ascii_are_compared_by_character() {
    assert_eq!(resolve(&["été", "étage"], "été"), Ok("été"));
    assert!(matches!(resolve(&["été", "étage"], "ét"), Err(ResolveError::Ambiguous { .. })));
}

#[test]
fn the_sentence_for_an_unknown_command() {
    let error = resolve(&ALL, "x").unwrap_err();
    assert_eq!(
        error.message(),
        "Unknown command 'x'. Available commands: lifetime, version, vitals, wifi_status"
    );
}

#[test]
fn the_sentence_for_an_ambiguous_command() {
    let error = resolve(&ALL, "v").unwrap_err();
    assert_eq!(error.message(), "Ambiguous command 'v'. Matches: version, vitals");
}

#[test]
fn match_command_resolves_against_the_table() {
    assert_eq!(match_command("ve"), Ok("version"));
    assert_eq!(match_command("vitals"), Ok("vitals"));
    assert_eq!(match_command("life"), Ok("lifetime"));
    assert_eq!(match_command("wifi"), Ok("wifi_status"));
}

#[test]
fn match_command_reports_in_a_sentence() {
    assert_eq!(
        match_command("v"),
        Err(String::from("Ambiguous command 'v'. Matches: version, vitals"))
    );
    assert_eq!(
        match_command("x"),
        Err(String::from(
            "Unknown command 'x'. Available commands: lifetime, version, vitals, wifi_status"
        ))
    );
    assert_eq!(
        match_command(""),
        Err(String::from("Ambiguous command ''. Matches: lifetime, version, vitals, wifi_status"))
    );
}

#[test]
fn select_gives_the_command() {
    assert_eq!(select("l"), Ok(Command::Lifetime));
    assert_eq!(select("ver"), Ok(Command::Version));
    assert_eq!(select("vi"), Ok(Command::Vitals));
    assert_eq!(select("w"), Ok(Command::WifiStatus));
    assert_eq!(select("v"), Err(String::from("Ambiguous command 'v'. Matches: version, vitals")));
}

#[test]
fn every_command_is_selected_by_its_name() {
    for command in [Command::Lifetime, Command::Version, Command::Vitals, Command::WifiStatus] {
        assert_eq!(select(command.name()), Ok(command));
    }
    assert_eq!(Command::Lifetime.name(), "lifetime");
    assert_eq!(Command::Version.name(), "version");
    assert_eq!(Command::Vitals.name(), "vitals");
    assert_eq!(Command::WifiStatus.name(), "wifi_status");
}

#[test]
fn version_and_vitals_need_two_letters() {
    let set = ["version", "vitals"];
    assert_eq!(shortest_unique_prefix(&set, "version"), Some(2));
    assert_eq!(shortest_unique_prefix(&set, "vitals"), Some(2));
    assert_eq!(abbreviated(&set, "version"), "(ve)rsion");
    assert_eq!(abbreviated(&set, "vitals"), "(vi)tals");
}

#[test]
fn one_letter_is_enough_without_vitals() {
    let set = ["lifetime", "version", "wifi_status"];
    assert_eq!(abbreviations(&set), strings(&["(l)ifetime", "(v)ersion", "(w)ifi_status"]));
}

#[test]
fn abbreviations_of_the_table() {
    assert_eq!(
        abbreviations(&ALL),
        strings(&["(l)ifetime", "(ve)rsion", "(vi)tals", "(w)ifi_status"])
    );
}

#[test]
fn the_only_command_needs_no_letter() {
    assert_eq!(shortest_unique_prefix(&["version"], "version"), Some(0));
    assert_eq!(abbreviated(&["version"], "version"), "()version");
}

#[test]
fn a_name_that_begins_another_has_no_abbreviation() {
    let set = ["ver", "version"];
    assert_eq!(shortest_unique_prefix(&set, "ver"), None);
    assert_eq!(abbreviated(&set, "ver"), "ver");
    assert_eq!(shortest_unique_prefix(&set, "version"), Some(4));
    assert_eq!(abbreviated(&set, "version"), "(vers)ion");
}

#[test]
fn a_name_outside_the_set_is_measured_against_the_set() {
    assert_eq!(shortest_unique_prefix(&ALL, "vista"), Some(2));
    assert_eq!(shortest_unique_prefix(&ALL, "xyz"), None);
    assert_eq!(shortest_unique_prefix(&[], "version"), None);
}

#[test]
fn a_whole_name_may_be_its_shortest_abbreviation() {
    let set = ["versions", "version", "versio"];
    assert_eq!(shortest_unique_prefix(&set, "versions"), Some(8));
    assert_eq!(abbreviated(&set, "versions"), "(versions)");
}

#[test]
fn the_characters_of_a_string() {
    assert_eq!(chars_of("a☕b"), vec!['a', '☕', 'b']);
    assert_eq!(chars_of(""), Vec::<char>::new());
}

#[test]
fn the_characters_of_each_string() {
    assert_eq!(chars_of_each(&["ab", "", "é"]), vec![vec!['a', 'b'], vec![], vec!['é']]);
    assert_eq!(chars_of_each(&[]), Vec::<Vec<char>>::new());
}

#[test]
fn the_shortest_unique_prefix_resolves_to_its_command() {
    for name in ALL {
        let len = shortest_unique_prefix(&ALL, name).unwrap();
        let typed: String = name.chars().take(len).collect();
        assert_eq!(resolve(&ALL, &typed), Ok(name));
        if len > 0 {
            let shorter: String = name.chars().take(len - 1).collect();
            assert!(resolve(&ALL, &shorter).is_err());
        }
    }
}

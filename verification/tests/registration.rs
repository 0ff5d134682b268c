use std::collections::BTreeMap;

use browserselect::registrar::{Action, Event, Phase, Registrar};
use browserselect::registry::{
    extensions, make_icon_reference, make_lifecycle_command, make_open_command, make_quoted, make_subkey,
    registration_records, schemes, Group, Policy, Record, Value, APP_PATHS_KEY, CANONICAL_NAME, CLASS_KEY,
    CLIENT_KEY, CUSTOM_SCHEME, DESCRIPTION, DISPLAY_NAME, HIDE_ICONS_COMMAND, PROGID, REGISTERED_APPLICATIONS_KEY,
    REGISTER_COMMAND, SHOW_ICONS_COMMAND,
};

const EXE_PATH: &str = "C:\\Tools\\Browser Select\\bs.exe";
const EXE_NAME: &str = "bs.exe";
const CLIENT: &str = "SOFTWARE\\Clients\\StartMenuInternet\\browserselect.exe";
const INSTALL_INFO: &str = "SOFTWARE\\Clients\\StartMenuInternet\\browserselect.exe\\InstallInfo";

type Store = BTreeMap<(String, String), Value>;

fn text(group: Group, key: &str, name: &str, value: &str) -> Record {
    Record {
        group,
        key: key.to_string(),
        name: name.to_string(),
        value: Value::Text(value.to_string()),
        policy: Policy::Overwrite,
    }
}

fn flag(group: Group, key: &str, name: &str, value: u32, policy: Policy) -> Record {
    Record { group, key: key.to_string(), name: name.to_string(), value: Value::Flag(value), policy }
}

fn entry(key: &str, name: &str) -> (String, String) {
    (key.to_string(), name.to_string())
}

/// Plays the store's owner: carries out what the registrar asks for, and
/// fails the request after `patience` requests have been served.
fn run(mut registrar: Registrar, store: &mut Store, patience: usize) -> (Registrar, Action, usize) {
    let mut served = 0;
    let mut event = Event::Start;
    loop {
        let (next, action) = registrar.step(event);
        registrar = next;
        match &action {
            Action::Finish | Action::Abort => return (registrar, action, served),
            _ if served == patience => event = Event::Failed,
            Action::Write { key, name, value } => {
                store.insert((key.clone(), name.clone()), value.clone());
                served += 1;
                event = Event::Written;
            }
            Action::Probe { key, name } => {
                served += 1;
                event = if store.contains_key(&(key.clone(), name.clone())) { Event::Found } else { Event::Missing };
            }
        }
    }
}

fn register(store: &mut Store, exe_path: &str, exe_name: &str) -> Action {
    run(Registrar::new(exe_path, exe_name), store, usize::MAX).1
}

/// What a store holds once every record of `records` has been carried out.
fn expected_store(before: &Store, records: &[Record]) -> Store {
    let mut store = before.clone();
    for record in records {
        let entry = (record.key.clone(), record.name.clone());
        if record.policy == Policy::KeepExisting && store.contains_key(&entry) {
            continue;
        }
        store.insert(entry, record.value.clone());
    }
    store
}

fn expected_records() -> Vec<Record> {
    let icon = "\"C:\\Tools\\Browser Select\\bs.exe\",0";
    let open = "\"C:\\Tools\\Browser Select\\bs.exe\" \"%1\"";
    let class = "SOFTWARE\\Classes\\BrowserSelector";
    let capabilities = "SOFTWARE\\Clients\\StartMenuInternet\\browserselect.exe\\Capabilities";
    let urls = "SOFTWARE\\Clients\\StartMenuInternet\\browserselect.exe\\Capabilities\\URLAssociations";
    let files = "SOFTWARE\\Clients\\StartMenuInternet\\browserselect.exe\\Capabilities\\FileAssociations";
    let app = "SOFTWARE\\Microsoft\\Windows\\CurrentVersion\\App Paths\\bs.exe";
    vec![
        text(Group::Identity, class, "", "browserselect"),
        text(Group::Identity, "SOFTWARE\\Classes\\BrowserSelector\\DefaultIcon", "", icon),
        text(Group::Identity, "SOFTWARE\\Classes\\BrowserSelector\\shell\\open\\command", "", open),
        text(Group::Identity, CLIENT, "", "browserselect"),
        text(Group::Identity, CLIENT, "LocalizedString", "browserselect"),
        text(Group::Identity, "SOFTWARE\\Clients\\StartMenuInternet\\browserselect.exe\\DefaultIcon", "", icon),
        text(
            Group::Identity,
            "SOFTWARE\\Clients\\StartMenuInternet\\browserselect.exe\\shell\\open\\command",
            "",
            open,
        ),
        text(Group::Capabilities, capabilities, "ApplicationName", "browserselect"),
        text(Group::Capabilities, capabilities, "ApplicationIcon", icon),
        text(
            Group::Capabilities,
            capabilities,
            "ApplicationDescription",
            "Pick the right browser for different url patterns",
        ),
        text(
            Group::Capabilities,
            "SOFTWARE\\Clients\\StartMenuInternet\\browserselect.exe\\Capabilities\\Startmenu",
            "StartMenuInternet",
            "browserselect.exe",
        ),
        text(Group::Protocols, urls, "bichrome", "BrowserSelector"),
        text(Group::Protocols, urls, "ftp", "BrowserSelector"),
        text(Group::Protocols, urls, "http", "BrowserSelector"),
        text(Group::Protocols, urls, "https", "BrowserSelector"),
        text(Group::Protocols, urls, "webcal", "BrowserSelector"),
        text(Group::FileTypes, files, ".htm", "BrowserSelector"),
        text(Group::FileTypes, files, ".html", "BrowserSelector"),
        text(Group::FileTypes, files, ".pdf", "BrowserSelector"),
        text(Group::FileTypes, files, ".shtml", "BrowserSelector"),
        text(Group::FileTypes, files, ".svg", "BrowserSelector"),
        text(Group::FileTypes, files, ".webp", "BrowserSelector"),
        text(Group::FileTypes, files, ".xht", "BrowserSelector"),
        text(Group::FileTypes, files, ".xhtml", "BrowserSelector"),
        text(Group::Lifecycle, INSTALL_INFO, "ReinstallCommand", "\"C:\\Tools\\Browser Select\\bs.exe\" register"),
        text(Group::Lifecycle, INSTALL_INFO, "HideIconsCommand", "\"C:\\Tools\\Browser Select\\bs.exe\" hide-icons"),
        text(Group::Lifecycle, INSTALL_INFO, "ShowIconsCommand", "\"C:\\Tools\\Browser Select\\bs.exe\" show-icons"),
        flag(Group::Visibility, INSTALL_INFO, "IconsVisible", 1, Policy::KeepExisting),
        text(Group::Announcement, "SOFTWARE\\RegisteredApplications", "browserselect", capabilities),
        text(Group::AppPath, app, "", "C:\\Tools\\Browser Select\\bs.exe"),
        flag(Group::AppPath, app, "UseUrl", 1, Policy::Overwrite),
    ]
}

#[test]
fn schema_lists_every_record() {
    let records = registration_records(EXE_PATH, EXE_NAME);
    let expected = expected_records();
    assert_eq!(records.len(), 31);
    for (index, (got, want)) in records.iter().zip(expected.iter()).enumerate() {
        assert_eq!(got, want, "record {index}");
    }
    assert_eq!(records, expected);
}

#[test]
fn schema_constants_are_the_shell_names() {
    assert_eq!(CANONICAL_NAME, "browserselect.exe");
    assert_eq!(PROGID, "BrowserSelector");
    assert_eq!(DISPLAY_NAME, "browserselect");
    assert_eq!(DESCRIPTION, "Pick the right browser for different url patterns");
    assert_eq!(CLASS_KEY, format!("SOFTWARE\\Classes\\{PROGID}"));
    assert_eq!(CLIENT_KEY, format!("SOFTWARE\\Clients\\StartMenuInternet\\{CANONICAL_NAME}"));
    assert_eq!(REGISTERED_APPLICATIONS_KEY, "SOFTWARE\\RegisteredApplications");
    assert_eq!(APP_PATHS_KEY, "SOFTWARE\\Microsoft\\Windows\\CurrentVersion\\App Paths");
    assert_eq!(CUSTOM_SCHEME, "bichrome");
    assert_eq!(REGISTER_COMMAND, "register");
    assert_eq!(HIDE_ICONS_COMMAND, "hide-icons");
    assert_eq!(SHOW_ICONS_COMMAND, "show-icons");
}

#[test]
fn schema_handles_the_fixed_schemes_and_extensions() {
    assert_eq!(schemes(), vec!["bichrome", "ftp", "http", "https", "webcal"]);
    assert_eq!(extensions(), vec![".htm", ".html", ".pdf", ".shtml", ".svg", ".webp", ".xht", ".xhtml"]);
}

#[test]
fn command_texts_are_built_from_the_quoted_path() {
    assert_eq!(make_quoted("C:\\a b\\x.exe"), "\"C:\\a b\\x.exe\"");
    assert_eq!(make_quoted(""), "\"\"");
    assert_eq!(make_icon_reference("C:\\x.exe"), "\"C:\\x.exe\",0");
    assert_eq!(make_open_command("C:\\x.exe"), "\"C:\\x.exe\" \"%1\"");
    assert_eq!(make_lifecycle_command("C:\\x.exe", "register"), "\"C:\\x.exe\" register");
    assert_eq!(make_lifecycle_command("C:\\x.exe", "hide-icons"), "\"C:\\x.exe\" hide-icons");
    assert_eq!(make_subkey("SOFTWARE\\Classes", "BrowserSelector"), "SOFTWARE\\Classes\\BrowserSelector");
    assert_eq!(make_subkey("a", ""), "a\\");
}

#[test]
fn schema_names_no_entry_twice() {
    for name in ["bs.exe", "", "Capabilities", "..\\Classes\\BrowserSelector"] {
        let records = registration_records(EXE_PATH, name);
        let mut entries: Vec<(String, String)> =
            records.iter().map(|record| (record.key.clone(), record.name.clone())).collect();
        entries.sort();
        entries.dedup();
        assert_eq!(entries.len(), 31);
    }
}

#[test]
fn schema_groups_follow_one_another() {
    let order = [
        Group::Identity,
        Group::Capabilities,
        Group::Protocols,
        Group::FileTypes,
        Group::Lifecycle,
        Group::Visibility,
        Group::Announcement,
        Group::AppPath,
    ];
    let records = registration_records(EXE_PATH, EXE_NAME);
    let ranks: Vec<usize> =
        records.iter().map(|record| order.iter().position(|group| *group == record.group).unwrap()).collect();
    assert!(ranks.windows(2).all(|pair| pair[0] <= pair[1]));
    let sizes: Vec<usize> = (0..8).map(|rank| ranks.iter().filter(|r| **r == rank).count()).collect();
    assert_eq!(sizes, vec![7, 4, 5, 8, 3, 1, 1, 2]);
}

#[test]
fn only_the_visibility_flag_keeps_what_exists() {
    let records = registration_records(EXE_PATH, EXE_NAME);
    let kept: Vec<&Record> = records.iter().filter(|record| record.policy == Policy::KeepExisting).collect();
    assert_eq!(kept, vec![&flag(Group::Visibility, INSTALL_INFO, "IconsVisible", 1, Policy::KeepExisting)]);
}

#[test]
fn registration_writes_every_record() {
    let mut store = Store::new();
    let (registrar, action, served) = run(Registrar::new(EXE_PATH, EXE_NAME), &mut store, usize::MAX);
    assert_eq!(action, Action::Finish);
    assert_eq!(registrar.phase(), Phase::Finished);
    assert_eq!(registrar.completed(), 31);
    assert_eq!(served, 32);
    assert_eq!(store.len(), 31);
    assert_eq!(store, expected_store(&Store::new(), &expected_records()));
    for record in expected_records() {
        assert_eq!(store.get(&(record.key.clone(), record.name.clone())), Some(&record.value));
    }
}

#[test]
fn registered_records_agree_with_one_another() {
    let mut store = Store::new();
    assert_eq!(register(&mut store, EXE_PATH, EXE_NAME), Action::Finish);
    let value = |key: &str, name: &str| match store.get(&entry(key, name)) {
        Some(Value::Text(text)) => text.clone(),
        other => panic!("no text at {key} / {name}: {other:?}"),
    };
    let quoted = format!("\"{EXE_PATH}\"");
    let open = value("SOFTWARE\\Classes\\BrowserSelector\\shell\\open\\command", "");
    let reinstall = value(INSTALL_INFO, "ReinstallCommand");
    assert_eq!(open, format!("{quoted} \"%1\""));
    assert_eq!(reinstall, format!("{quoted} register"));
    assert_eq!(value(INSTALL_INFO, "HideIconsCommand"), format!("{quoted} hide-icons"));
    assert_eq!(value(INSTALL_INFO, "ShowIconsCommand"), format!("{quoted} show-icons"));
    assert_eq!(value(&format!("{CLIENT}\\shell\\open\\command"), ""), open);
    assert_eq!(value("SOFTWARE\\Microsoft\\Windows\\CurrentVersion\\App Paths\\bs.exe", ""), EXE_PATH);
    let capabilities = value("SOFTWARE\\RegisteredApplications", "browserselect");
    assert_eq!(capabilities, format!("{CLIENT}\\Capabilities"));
    assert_eq!(value(&capabilities, "ApplicationName"), "browserselect");
    assert_eq!(value(&format!("{capabilities}\\URLAssociations"), "https"), "BrowserSelector");
    assert_eq!(value(&format!("{capabilities}\\FileAssociations"), ".html"), "BrowserSelector");
}

#[test]
fn registering_twice_is_registering_once() {
    let mut store = Store::new();
    store.insert(entry("SOFTWARE\\Other", "kept"), Value::Text("untouched".to_string()));
    store.insert(entry(CLIENT, "LocalizedString"), Value::Text("stale".to_string()));
    assert_eq!(register(&mut store, EXE_PATH, EXE_NAME), Action::Finish);
    let once = store.clone();
    assert_eq!(register(&mut store, EXE_PATH, EXE_NAME), Action::Finish);
    assert_eq!(store, once);
    assert_eq!(once.get(&entry("SOFTWARE\\Other", "kept")), Some(&Value::Text("untouched".to_string())));
    assert_eq!(once.get(&entry(CLIENT, "LocalizedString")), Some(&Value::Text("browserselect".to_string())));
    assert_eq!(once.len(), 32);
}

#[test]
fn visibility_flag_is_set_only_where_absent() {
    let mut fresh = Store::new();
    assert_eq!(register(&mut fresh, EXE_PATH, EXE_NAME), Action::Finish);
    assert_eq!(fresh.get(&entry(INSTALL_INFO, "IconsVisible")), Some(&Value::Flag(1)));

    let mut hidden = Store::new();
    hidden.insert(entry(INSTALL_INFO, "IconsVisible"), Value::Flag(0));
    let (_, action, served) = run(Registrar::new(EXE_PATH, EXE_NAME), &mut hidden, usize::MAX);
    assert_eq!(action, Action::Finish);
    assert_eq!(served, 31);
    assert_eq!(hidden.get(&entry(INSTALL_INFO, "IconsVisible")), Some(&Value::Flag(0)));
    assert_eq!(hidden.len(), 31);
}

#[test]
fn visibility_flag_keeps_its_first_value_against_another_default() {
    let mut store = Store::new();
    assert_eq!(register(&mut store, EXE_PATH, EXE_NAME), Action::Finish);
    let mut records = registration_records("D:\\moved\\other.exe", "other.exe");
    for record in records.iter_mut() {
        if record.policy == Policy::KeepExisting {
            record.value = Value::Flag(0);
        }
    }
    let (_, action, _) = run(Registrar::for_records(records), &mut store, usize::MAX);
    assert_eq!(action, Action::Finish);
    assert_eq!(store.get(&entry(INSTALL_INFO, "IconsVisible")), Some(&Value::Flag(1)));
    assert_eq!(
        store.get(&entry(INSTALL_INFO, "ReinstallCommand")),
        Some(&Value::Text("\"D:\\moved\\other.exe\" register".to_string()))
    );
}

#[test]
fn failed_write_aborts_and_leaves_what_was_written() {
    let records = expected_records();
    for patience in [0usize, 1, 7, 12, 26, 27, 28, 31] {
        let mut store = Store::new();
        let (registrar, action, served) = run(Registrar::new(EXE_PATH, EXE_NAME), &mut store, patience);
        assert_eq!(action, Action::Abort, "patience {patience}");
        assert_eq!(served, patience);
        assert_eq!(registrar.phase(), Phase::Aborted);
        let done = registrar.completed();
        assert_eq!(done, if patience <= 27 { patience } else { patience - 1 });
        assert_eq!(store, expected_store(&Store::new(), &records[..done]));
        let (registrar, action) = registrar.step(Event::Written);
        assert_eq!(action, Action::Abort);
        assert_eq!(registrar.completed(), done);
    }
}

#[test]
fn retry_after_a_failure_completes_the_registration() {
    let mut store = Store::new();
    let (_, action, _) = run(Registrar::new(EXE_PATH, EXE_NAME), &mut store, 9);
    assert_eq!(action, Action::Abort);
    assert_eq!(store.len(), 9);
    assert_eq!(register(&mut store, EXE_PATH, EXE_NAME), Action::Finish);
    assert_eq!(store, expected_store(&Store::new(), &expected_records()));
}

#[test]
fn registrar_asks_for_one_thing_at_a_time() {
    let records = vec![
        text(Group::Identity, "K", "a", "1"),
        flag(Group::Visibility, "K", "sticky", 5, Policy::KeepExisting),
        flag(Group::AppPath, "L", "b", 2, Policy::Overwrite),
    ];
    let registrar = Registrar::for_records(records);
    assert_eq!(registrar.phase(), Phase::Ready);
    assert_eq!(registrar.completed(), 0);
    let (registrar, action) = registrar.step(Event::Start);
    assert_eq!(
        action,
        Action::Write { key: "K".to_string(), name: "a".to_string(), value: Value::Text("1".to_string()) }
    );
    assert_eq!(registrar.phase(), Phase::Writing);
    let (registrar, action) = registrar.step(Event::Written);
    assert_eq!(action, Action::Probe { key: "K".to_string(), name: "sticky".to_string() });
    assert_eq!(registrar.phase(), Phase::Probing);
    assert_eq!(registrar.completed(), 1);
    let (registrar, action) = registrar.step(Event::Missing);
    assert_eq!(action, Action::Write { key: "K".to_string(), name: "sticky".to_string(), value: Value::Flag(5) });
    assert_eq!(registrar.phase(), Phase::Writing);
    assert_eq!(registrar.completed(), 1);
    let (registrar, action) = registrar.step(Event::Written);
    assert_eq!(action, Action::Write { key: "L".to_string(), name: "b".to_string(), value: Value::Flag(2) });
    assert_eq!(registrar.completed(), 2);
    let (registrar, action) = registrar.step(Event::Written);
    assert_eq!(action, Action::Finish);
    assert_eq!(registrar.phase(), Phase::Finished);
    assert_eq!(registrar.completed(), 3);
    let (registrar, action) = registrar.step(Event::Failed);
    assert_eq!(action, Action::Finish);
    assert_eq!(registrar.phase(), Phase::Finished);
}

#[test]
fn found_entry_is_skipped() {
    let records = vec![
        flag(Group::Visibility, "K", "sticky", 5, Policy::KeepExisting),
        text(Group::AppPath, "L", "b", "2"),
    ];
    let (registrar, action) = Registrar::for_records(records).step(Event::Start);
    assert_eq!(action, Action::Probe { key: "K".to_string(), name: "sticky".to_string() });
    let (registrar, action) = registrar.step(Event::Found);
    assert_eq!(
        action,
        Action::Write { key: "L".to_string(), name: "b".to_string(), value: Value::Text("2".to_string()) }
    );
    assert_eq!(registrar.completed(), 1);
}

#[test]
fn answer_that_does_not_fit_the_request_aborts() {
    let records = || {
        vec![text(Group::Identity, "K", "a", "1"), flag(Group::Visibility, "K", "s", 1, Policy::KeepExisting)]
    };
    for event in [Event::Written, Event::Found, Event::Missing, Event::Failed] {
        let (registrar, action) = Registrar::for_records(records()).step(event);
        assert_eq!(action, Action::Abort);
        assert_eq!(registrar.phase(), Phase::Aborted);
        assert_eq!(registrar.step(Event::Start).1, Action::Abort);
    }
    for event in [Event::Start, Event::Found, Event::Missing, Event::Failed] {
        let (registrar, _) = Registrar::for_records(records()).step(Event::Start);
        let (registrar, action) = registrar.step(event);
        assert_eq!(action, Action::Abort);
        assert_eq!(registrar.completed(), 0);
    }
    for event in [Event::Start, Event::Written, Event::Failed] {
        let (registrar, _) = Registrar::for_records(records()).step(Event::Start);
        let (registrar, _) = registrar.step(Event::Written);
        assert_eq!(registrar.phase(), Phase::Probing);
        let (registrar, action) = registrar.step(event);
        assert_eq!(action, Action::Abort);
        assert_eq!(registrar.completed(), 1);
    }
}

#[test]
fn registration_without_records_finishes_at_once() {
    let (registrar, action) = Registrar::for_records(Vec::new()).step(Event::Start);
    assert_eq!(action, Action::Finish);
    assert_eq!(registrar.phase(), Phase::Finished);
    assert_eq!(registrar.completed(), 0);
}

#[test]
fn later_record_of_an_entry_overwrites_the_earlier() {
    let records = vec![
        text(Group::Identity, "K", "a", "first"),
        flag(Group::Identity, "K", "a", 9, Policy::KeepExisting),
        text(Group::Identity, "K", "a", "last"),
    ];
    let mut store = Store::new();
    let (_, action, served) = run(Registrar::for_records(records), &mut store, usize::MAX);
    assert_eq!(action, Action::Finish);
    assert_eq!(served, 3);
    assert_eq!(store.get(&entry("K", "a")), Some(&Value::Text("last".to_string())));
}

#[test]
fn records_can_be_copied() {
    let record = flag(Group::AppPath, "K", "UseUrl", 1, Policy::Overwrite);
    assert_eq!(record.clone(), record);
    let value = Value::Text("x".to_string());
    assert_eq!(value.clone(), value);
    assert_eq!(Record::text(Group::Identity, "K".to_string(), "n", "v".to_string()), text(Group::Identity, "K", "n", "v"));
    assert_eq!(
        Record::flag(Group::Visibility, "K".to_string(), "n", 3, Policy::KeepExisting),
        flag(Group::Visibility, "K", "n", 3, Policy::KeepExisting)
    );
}

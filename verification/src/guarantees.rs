//! What a registration guarantees, whatever the store held before.

use vstd::prelude::*;
use crate::registry::{
    app_path_key, capabilities_key, file_associations_key, handled_extensions, handled_schemes, icon_reference,
    install_info_key, lifecycle_command, open_command, registration_schema, subkey, url_associations_key, Policy,
    ValueModel, CANONICAL_NAME, CLASS_KEY, CLIENT_KEY, DISPLAY_NAME, HIDE_ICONS_COMMAND, PROGID,
    REGISTERED_APPLICATIONS_KEY, REGISTER_COMMAND, SHOW_ICONS_COMMAND,
};
use crate::registrar::{law_run_writes_leading_records, run, Event, RegistrarModel};
use crate::store::{
    entries_distinct, law_record_decides_its_entry, law_registration_is_idempotent, lookup, registered, Entry, Store,
};

verus! {

/// The lengths of the schema's keys, and the characters that tell apart
/// those whose lengths may agree.
proof fn lemma_key_shapes(exe_name: Seq<char>)
    ensures
        CLASS_KEY@.len() == 32 && CLASS_KEY@[9] == 'C',
        subkey(CLASS_KEY@, "DefaultIcon"@).len() == 44 && subkey(CLASS_KEY@, "DefaultIcon"@)[9] == 'C',
        subkey(CLASS_KEY@, "shell\\open\\command"@).len() == 51 && subkey(CLASS_KEY@, "shell\\open\\command"@)[9]
            == 'C',
        CLIENT_KEY@.len() == 52 && CLIENT_KEY@[9] == 'C',
        subkey(CLIENT_KEY@, "DefaultIcon"@).len() == 64 && subkey(CLIENT_KEY@, "DefaultIcon"@)[9] == 'C' && subkey(
            CLIENT_KEY@,
            "DefaultIcon"@,
        )[53] == 'D',
        subkey(CLIENT_KEY@, "shell\\open\\command"@).len() == 71 && subkey(CLIENT_KEY@, "shell\\open\\command"@)[9]
            == 'C',
        capabilities_key().len() == 65 && capabilities_key()[9] == 'C',
        subkey(capabilities_key(), "Startmenu"@).len() == 75 && subkey(capabilities_key(), "Startmenu"@)[9] == 'C',
        url_associations_key().len() == 81 && url_associations_key()[9] == 'C',
        file_associations_key().len() == 82 && file_associations_key()[9] == 'C',
        install_info_key().len() == 64 && install_info_key()[9] == 'C' && install_info_key()[53] == 'I',
        REGISTERED_APPLICATIONS_KEY@.len() == 31 && REGISTERED_APPLICATIONS_KEY@[9] == 'R',
        app_path_key(exe_name)[9] == 'M',
{
    reveal_strlit("SOFTWARE\\Classes\\BrowserSelector");
    reveal_strlit("SOFTWARE\\Clients\\StartMenuInternet\\browserselect.exe");
    reveal_strlit("SOFTWARE\\RegisteredApplications");
    reveal_strlit("SOFTWARE\\Microsoft\\Windows\\CurrentVersion\\App Paths");
    reveal_strlit("\\");
    reveal_strlit("DefaultIcon");
    reveal_strlit("shell\\open\\command");
    reveal_strlit("Capabilities");
    reveal_strlit("Startmenu");
    reveal_strlit("URLAssociations");
    reveal_strlit("FileAssociations");
    reveal_strlit("InstallInfo");
}

/// The lengths of the names that share a key, and the characters that tell
/// apart those of equal length.
proof fn lemma_name_shapes()
    ensures
        ""@.len() == 0,
        "LocalizedString"@.len() == 15,
        "ApplicationName"@.len() == 15 && "ApplicationName"@[11] == 'N',
        "ApplicationIcon"@.len() == 15 && "ApplicationIcon"@[11] == 'I',
        "ApplicationDescription"@.len() == 22,
        "ReinstallCommand"@.len() == 16 && "ReinstallCommand"@[1] == 'e',
        "HideIconsCommand"@.len() == 16 && "HideIconsCommand"@[1] == 'i',
        "ShowIconsCommand"@.len() == 16 && "ShowIconsCommand"@[1] == 'h',
        "IconsVisible"@.len() == 12,
        "UseUrl"@.len() == 6,
        handled_schemes().len() == 5,
        handled_schemes()[0].len() == 8,
        handled_schemes()[1].len() == 3,
        handled_schemes()[2].len() == 4,
        handled_schemes()[3].len() == 5,
        handled_schemes()[4].len() == 6,
        handled_extensions().len() == 8,
        handled_extensions()[0].len() == 4 && handled_extensions()[0][1] == 'h',
        handled_extensions()[1].len() == 5 && handled_extensions()[1][1] == 'h',
        handled_extensions()[2].len() == 4 && handled_extensions()[2][1] == 'p',
        handled_extensions()[3].len() == 6 && handled_extensions()[3][1] == 's',
        handled_extensions()[4].len() == 4 && handled_extensions()[4][1] == 's',
        handled_extensions()[5].len() == 5 && handled_extensions()[5][1] == 'w',
        handled_extensions()[6].len() == 4 && handled_extensions()[6][1] == 'x',
        handled_extensions()[7].len() == 6 && handled_extensions()[7][1] == 'x',
{
    reveal_strlit("");
    reveal_strlit("LocalizedString");
    reveal_strlit("ApplicationName");
    reveal_strlit("ApplicationIcon");
    reveal_strlit("ApplicationDescription");
    reveal_strlit("ReinstallCommand");
    reveal_strlit("HideIconsCommand");
    reveal_strlit("ShowIconsCommand");
    reveal_strlit("IconsVisible");
    reveal_strlit("UseUrl");
    reveal_strlit("bichrome");
    reveal_strlit("ftp");
    reveal_strlit("http");
    reveal_strlit("https");
    reveal_strlit("webcal");
    reveal_strlit(".htm");
    reveal_strlit(".html");
    reveal_strlit(".pdf");
    reveal_strlit(".shtml");
    reveal_strlit(".svg");
    reveal_strlit(".webp");
    reveal_strlit(".xht");
    reveal_strlit(".xhtml");
}

/// The two keys that belong to this program are named after it: the class by
/// the program identifier, the client by the canonical file name.
pub proof fn law_keys_carry_the_program_names()
    ensures
        CLASS_KEY@ == subkey("SOFTWARE\\Classes"@, PROGID@),
        CLIENT_KEY@ == subkey("SOFTWARE\\Clients\\StartMenuInternet"@, CANONICAL_NAME@),
{
    reveal_strlit("SOFTWARE\\Classes\\BrowserSelector");
    reveal_strlit("SOFTWARE\\Clients\\StartMenuInternet\\browserselect.exe");
    reveal_strlit("SOFTWARE\\Classes");
    reveal_strlit("SOFTWARE\\Clients\\StartMenuInternet");
    reveal_strlit("\\");
    reveal_strlit("BrowserSelector");
    reveal_strlit("browserselect.exe");
    assert(CLASS_KEY@ =~= subkey("SOFTWARE\\Classes"@, PROGID@));
    assert(CLIENT_KEY@ =~= subkey("SOFTWARE\\Clients\\StartMenuInternet"@, CANONICAL_NAME@));
}

/// The schema names no entry twice: every record has an entry of its own.
pub proof fn law_schema_names_no_entry_twice(exe_path: Seq<char>, exe_name: Seq<char>)
    ensures
        registration_schema(exe_path, exe_name).len() == 31,
        entries_distinct(registration_schema(exe_path, exe_name)),
{
    lemma_key_shapes(exe_name);
    lemma_name_shapes();
    let schema = registration_schema(exe_path, exe_name);
    assert(schema.len() == 31);
}

/// The entry of the icons-visible flag.
pub open spec fn visibility_entry() -> Entry {
    (install_info_key(), "IconsVisible"@)
}

/// Groups follow one another: no record of an earlier group comes after a
/// record of a later one. A registration that stops half-way has therefore
/// completed every group before the one it stopped in, and begun none after it.
pub proof fn law_groups_follow_one_another(exe_path: Seq<char>, exe_name: Seq<char>)
    ensures
        forall|i: int, j: int|
            #![trigger registration_schema(exe_path, exe_name)[i], registration_schema(exe_path, exe_name)[j]]
            0 <= i <= j < registration_schema(exe_path, exe_name).len() ==> registration_schema(
                exe_path,
                exe_name,
            )[i].group.rank() <= registration_schema(exe_path, exe_name)[j].group.rank(),
{
    lemma_name_shapes();
}

/// At most one group is left incomplete. Where a registration stops with its
/// cursor on a record, every record of an earlier group lies before the
/// cursor, and so has been carried out, and every record of a later group
/// lies after it, and so has not been touched.
pub proof fn law_at_most_one_group_is_incomplete(exe_path: Seq<char>, exe_name: Seq<char>, cursor: int)
    requires
        0 <= cursor < registration_schema(exe_path, exe_name).len(),
    ensures
        forall|i: int|
            #![trigger registration_schema(exe_path, exe_name)[i]]
            0 <= i < registration_schema(exe_path, exe_name).len() ==> {
                let here = registration_schema(exe_path, exe_name)[cursor].group.rank();
                let there = registration_schema(exe_path, exe_name)[i].group.rank();
                &&& there < here ==> i < cursor
                &&& there > here ==> i > cursor
            },
{
    law_groups_follow_one_another(exe_path, exe_name);
    let schema = registration_schema(exe_path, exe_name);
    assert forall|i: int| 0 <= i < schema.len() implies {
        &&& (#[trigger] schema[i]).group.rank() < schema[cursor].group.rank() ==> i < cursor
        &&& schema[i].group.rank() > schema[cursor].group.rank() ==> i > cursor
    } by {
        if i >= cursor {
            assert(schema[cursor].group.rank() <= schema[i].group.rank());
        }
        if i <= cursor {
            assert(schema[i].group.rank() <= schema[cursor].group.rank());
        }
    }
}

/// Registration is complete: after it every record of the schema is present
/// with its own value, but for a record that keeps what exists, whose entry
/// holds the value it had before if it had one.
pub proof fn law_registration_is_complete(store: Store, exe_path: Seq<char>, exe_name: Seq<char>, index: int)
    requires
        0 <= index < registration_schema(exe_path, exe_name).len(),
    ensures
        ({
            let record = registration_schema(exe_path, exe_name)[index];
            let after = registered(store, registration_schema(exe_path, exe_name));
            &&& after.contains_key(record.entry())
            &&& after[record.entry()] == if record.policy == Policy::KeepExisting && store.contains_key(
                record.entry(),
            ) {
                store[record.entry()]
            } else {
                record.value
            }
        }),
{
    law_schema_names_no_entry_twice(exe_path, exe_name);
    law_record_decides_its_entry(store, registration_schema(exe_path, exe_name), index);
}

/// The icons-visible flag is sticky. A registration sets it to 1 where it is
/// absent, and leaves it alone where it is present: whatever executable a
/// later registration is for, the flag keeps the value it had.
pub proof fn law_visibility_is_sticky(store: Store, exe_path: Seq<char>, exe_name: Seq<char>)
    ensures
        ({
            let after = registered(store, registration_schema(exe_path, exe_name));
            &&& after.contains_key(visibility_entry())
            &&& after[visibility_entry()] == if store.contains_key(visibility_entry()) {
                store[visibility_entry()]
            } else {
                ValueModel::Flag(1)
            }
        }),
{
    let schema = registration_schema(exe_path, exe_name);
    lemma_name_shapes();
    assert(schema[27].entry() == visibility_entry());
    law_registration_is_complete(store, exe_path, exe_name, 27);
}

/// Registering twice in a row leaves the store as registering once does, and
/// the icons-visible flag keeps its first value even where the second
/// registration is for another executable.
pub proof fn law_second_registration_changes_nothing(
    store: Store,
    exe_path: Seq<char>,
    exe_name: Seq<char>,
    other_path: Seq<char>,
    other_name: Seq<char>,
)
    ensures
        ({
            let once = registered(store, registration_schema(exe_path, exe_name));
            let again = registered(once, registration_schema(exe_path, exe_name));
            let moved = registered(once, registration_schema(other_path, other_name));
            &&& again == once
            &&& moved[visibility_entry()] == once[visibility_entry()]
        }),
{
    let once = registered(store, registration_schema(exe_path, exe_name));
    law_registration_is_idempotent(store, registration_schema(exe_path, exe_name));
    law_visibility_is_sticky(store, exe_path, exe_name);
    law_visibility_is_sticky(once, other_path, other_name);
}

/// A registration against a store in good health finishes, and leaves the
/// store as carrying out every record of the schema does; a second one right
/// after it finishes too, and leaves the store as the first did.
pub proof fn law_registering_again_changes_nothing(
    store: Store,
    exe_path: Seq<char>,
    exe_name: Seq<char>,
    patience: nat,
    limit: nat,
)
    requires
        patience >= 2 * registration_schema(exe_path, exe_name).len(),
        limit >= 2 * registration_schema(exe_path, exe_name).len(),
    ensures
        ({
            let schema = registration_schema(exe_path, exe_name);
            let first = run(RegistrarModel::fresh(schema), Event::Start, store, patience, limit);
            let second = run(RegistrarModel::fresh(schema), Event::Start, first.2, patience, limit);
            &&& first.1 is Finish
            &&& first.2 == registered(store, schema)
            &&& second.1 is Finish
            &&& second.2 == first.2
        }),
{
    let schema = registration_schema(exe_path, exe_name);
    let first = run(RegistrarModel::fresh(schema), Event::Start, store, patience, limit);
    law_run_writes_leading_records(schema, store, patience, limit);
    law_run_writes_leading_records(schema, first.2, patience, limit);
    assert(schema.take(schema.len() as int) =~= schema);
    law_registration_is_idempotent(store, schema);
}

/// The records agree with one another. After a registration both open
/// commands, the three lifecycle commands and both icon references name the
/// same quoted path, the application path is that path unquoted, and the
/// list of registered applications points to the key that holds the capabilities.
pub proof fn law_records_agree(store: Store, exe_path: Seq<char>, exe_name: Seq<char>)
    ensures
        ({
            let after = registered(store, registration_schema(exe_path, exe_name));
            let opened = ValueModel::Text(open_command(exe_path));
            let icon = ValueModel::Text(icon_reference(exe_path));
            &&& lookup(after, (subkey(CLASS_KEY@, "shell\\open\\command"@), ""@)) == Some(opened)
            &&& lookup(after, (subkey(CLIENT_KEY@, "shell\\open\\command"@), ""@)) == Some(opened)
            &&& lookup(after, (subkey(CLASS_KEY@, "DefaultIcon"@), ""@)) == Some(icon)
            &&& lookup(after, (subkey(CLIENT_KEY@, "DefaultIcon"@), ""@)) == Some(icon)
            &&& lookup(after, (capabilities_key(), "ApplicationIcon"@)) == Some(icon)
            &&& lookup(after, (install_info_key(), "ReinstallCommand"@)) == Some(
                ValueModel::Text(lifecycle_command(exe_path, REGISTER_COMMAND@)),
            )
            &&& lookup(after, (install_info_key(), "HideIconsCommand"@)) == Some(
                ValueModel::Text(lifecycle_command(exe_path, HIDE_ICONS_COMMAND@)),
            )
            &&& lookup(after, (install_info_key(), "ShowIconsCommand"@)) == Some(
                ValueModel::Text(lifecycle_command(exe_path, SHOW_ICONS_COMMAND@)),
            )
            &&& lookup(after, (app_path_key(exe_name), ""@)) == Some(ValueModel::Text(exe_path))
            &&& lookup(after, (REGISTERED_APPLICATIONS_KEY@, DISPLAY_NAME@)) == Some(
                ValueModel::Text(capabilities_key()),
            )
            &&& after.contains_key((capabilities_key(), "ApplicationName"@))
        }),
{
    let schema = registration_schema(exe_path, exe_name);
    lemma_name_shapes();
    law_registration_is_complete(store, exe_path, exe_name, 1);
    law_registration_is_complete(store, exe_path, exe_name, 2);
    law_registration_is_complete(store, exe_path, exe_name, 5);
    law_registration_is_complete(store, exe_path, exe_name, 6);
    law_registration_is_complete(store, exe_path, exe_name, 7);
    law_registration_is_complete(store, exe_path, exe_name, 8);
    law_registration_is_complete(store, exe_path, exe_name, 24);
    law_registration_is_complete(store, exe_path, exe_name, 25);
    law_registration_is_complete(store, exe_path, exe_name, 26);
    law_registration_is_complete(store, exe_path, exe_name, 28);
    law_registration_is_complete(store, exe_path, exe_name, 29);
}

} // verus!

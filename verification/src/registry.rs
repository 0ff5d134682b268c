//! The records that declare this program to the shell as a browser.
//!
//! Every record is a named value under a key of the per-user configuration
//! root. The schema is fixed but for the executable's own path and file name.
//! Records come in groups, and the groups are laid out one after another, so
//! that a registration that stops half-way leaves at most one group incomplete.

use vstd::prelude::*;
use vstd::string::StringExecFns;

verus! {

/// File name under which the shell knows this program, whatever the file is called on disk.
pub const CANONICAL_NAME: &'static str = "browserselect.exe";

/// Program identifier that protocol and file-type associations point to.
pub const PROGID: &'static str = "BrowserSelector";

/// Name shown to the user.
pub const DISPLAY_NAME: &'static str = "browserselect";

/// One-line description shown by the shell's default-apps surface.
pub const DESCRIPTION: &'static str = "Pick the right browser for different url patterns";

/// Key of the program identifier's class.
pub const CLASS_KEY: &'static str = "SOFTWARE\\Classes\\BrowserSelector";

/// Key of this program among the shell's internet clients.
pub const CLIENT_KEY: &'static str = "SOFTWARE\\Clients\\StartMenuInternet\\browserselect.exe";

/// Key of the shell-wide list of registered applications.
pub const REGISTERED_APPLICATIONS_KEY: &'static str = "SOFTWARE\\RegisteredApplications";

/// Key of the table of application paths; each program has a child named by its file name.
pub const APP_PATHS_KEY: &'static str = "SOFTWARE\\Microsoft\\Windows\\CurrentVersion\\App Paths";

/// Scheme of this program's own URLs.
pub const CUSTOM_SCHEME: &'static str = "bichrome";

/// Argument with which the shell asks for a new registration.
pub const REGISTER_COMMAND: &'static str = "register";

/// Argument with which the shell asks to hide the program's icons.
pub const HIDE_ICONS_COMMAND: &'static str = "hide-icons";

/// Argument with which the shell asks to show the program's icons.
pub const SHOW_ICONS_COMMAND: &'static str = "show-icons";

/// The logical groups of records, in the order in which they are written.
#[derive(Clone, Copy, PartialEq, Eq, Debug, Structural)]
pub enum Group {
    /// Display name, icon and open command, of the class and of the client.
    Identity,
    /// Application name, icon, description and menu identifier.
    Capabilities,
    /// The URL schemes handled.
    Protocols,
    /// The file extensions handled.
    FileTypes,
    /// Reinstall, hide-icons and show-icons commands.
    Lifecycle,
    /// The icons-visible flag, which belongs to the user once set.
    Visibility,
    /// The pointer from the list of registered applications to the capabilities.
    Announcement,
    /// The executable's entry in the table of application paths.
    AppPath,
}

impl Group {
    /// Position of the group in the writing order, from 0.
    pub open spec fn rank(self) -> nat {
        match self {
            Group::Identity => 0,
            Group::Capabilities => 1,
            Group::Protocols => 2,
            Group::FileTypes => 3,
            Group::Lifecycle => 4,
            Group::Visibility => 5,
            Group::Announcement => 6,
            Group::AppPath => 7,
        }
    }
}

/// What a registration does where the entry already holds a value.
#[derive(Clone, Copy, PartialEq, Eq, Debug, Structural)]
pub enum Policy {
    /// The value is written whatever was there.
    Overwrite,
    /// The value is written only where the entry is absent.
    KeepExisting,
}

/// The data of an entry: a string or a 32-bit number.
#[derive(Debug, PartialEq, Eq)]
pub enum Value {
    Text(String),
    Flag(u32),
}

/// The mathematical content of a [`Value`].
pub enum ValueModel {
    Text(Seq<char>),
    Flag(u32),
}

impl View for Value {
    type V = ValueModel;

    open spec fn view(&self) -> ValueModel {
        match self {
            Value::Text(text) => ValueModel::Text(text@),
            Value::Flag(flag) => ValueModel::Flag(*flag),
        }
    }
}

impl Clone for Value {
    fn clone(&self) -> (copy: Value)
        ensures
            copy@ == self@,
    {
        match self {
            Value::Text(text) => Value::Text(text.clone()),
            Value::Flag(flag) => Value::Flag(*flag),
        }
    }
}

/// One named value under one key, with its group and its policy.
#[derive(Debug, PartialEq, Eq)]
pub struct Record {
    pub group: Group,
    pub key: String,
    pub name: String,
    pub value: Value,
    pub policy: Policy,
}

/// The mathematical content of a [`Record`].
pub struct RecordModel {
    pub group: Group,
    pub key: Seq<char>,
    pub name: Seq<char>,
    pub value: ValueModel,
    pub policy: Policy,
}

impl RecordModel {
    /// The entry that the record writes: its key and the value's name.
    pub open spec fn entry(self) -> (Seq<char>, Seq<char>) {
        (self.key, self.name)
    }

    /// A string record that overwrites.
    pub open spec fn text(group: Group, key: Seq<char>, name: Seq<char>, value: Seq<char>) -> RecordModel {
        RecordModel { group, key, name, value: ValueModel::Text(value), policy: Policy::Overwrite }
    }

    /// A number record.
    pub open spec fn flag(group: Group, key: Seq<char>, name: Seq<char>, value: u32, policy: Policy) -> RecordModel {
        RecordModel { group, key, name, value: ValueModel::Flag(value), policy }
    }
}

impl View for Record {
    type V = RecordModel;

    open spec fn view(&self) -> RecordModel {
        RecordModel {
            group: self.group,
            key: self.key@,
            name: self.name@,
            value: self.value@,
            policy: self.policy,
        }
    }
}

impl DeepView for Record {
    type V = RecordModel;

    open spec fn deep_view(&self) -> RecordModel {
        self@
    }
}

impl Clone for Record {
    fn clone(&self) -> (copy: Record)
        ensures
            copy@ == self@,
    {
        Record {
            group: self.group,
            key: self.key.clone(),
            name: self.name.clone(),
            value: self.value.clone(),
            policy: self.policy,
        }
    }
}

impl Record {
    /// A string record that overwrites.
    pub fn text(group: Group, key: String, name: &str, value: String) -> (record: Record)
        ensures
            record@ == RecordModel::text(group, key@, name@, value@),
    {
        Record { group, key, name: name.to_owned(), value: Value::Text(value), policy: Policy::Overwrite }
    }

    /// A number record.
    pub fn flag(group: Group, key: String, name: &str, value: u32, policy: Policy) -> (record: Record)
        ensures
            record@ == RecordModel::flag(group, key@, name@, value, policy),
    {
        Record { group, key, name: name.to_owned(), value: Value::Flag(value), policy }
    }
}

/// The path of a child key: parent, separator, child.
pub open spec fn subkey(parent: Seq<char>, child: Seq<char>) -> Seq<char> {
    parent + "\\"@ + child
}

/// The executable's path between double quotes.
pub open spec fn quoted(exe_path: Seq<char>) -> Seq<char> {
    "\""@ + exe_path + "\""@
}

/// The icon reference: the quoted path and the index of the first icon resource.
pub open spec fn icon_reference(exe_path: Seq<char>) -> Seq<char> {
    quoted(exe_path) + ",0"@
}

/// The open command: the quoted path and a placeholder that the shell
/// replaces by the URL or file to open.
pub open spec fn open_command(exe_path: Seq<char>) -> Seq<char> {
    quoted(exe_path) + " \"%1\""@
}

/// A command that calls this executable again with one argument.
pub open spec fn lifecycle_command(exe_path: Seq<char>, argument: Seq<char>) -> Seq<char> {
    quoted(exe_path) + " "@ + argument
}

/// Key of the capabilities, under the client's key.
pub open spec fn capabilities_key() -> Seq<char> {
    subkey(CLIENT_KEY@, "Capabilities"@)
}

/// Key of the installation commands, under the client's key.
pub open spec fn install_info_key() -> Seq<char> {
    subkey(CLIENT_KEY@, "InstallInfo"@)
}

/// Key of the URL scheme associations.
pub open spec fn url_associations_key() -> Seq<char> {
    subkey(capabilities_key(), "URLAssociations"@)
}

/// Key of the file extension associations.
pub open spec fn file_associations_key() -> Seq<char> {
    subkey(capabilities_key(), "FileAssociations"@)
}

/// Key of the executable in the table of application paths.
pub open spec fn app_path_key(exe_name: Seq<char>) -> Seq<char> {
    subkey(APP_PATHS_KEY@, exe_name)
}

/// The URL schemes that the program declares it handles.
pub open spec fn handled_schemes() -> Seq<Seq<char>> {
    seq![CUSTOM_SCHEME@, "ftp"@, "http"@, "https"@, "webcal"@]
}

/// The file extensions that the program declares it handles.
pub open spec fn handled_extensions() -> Seq<Seq<char>> {
    seq![".htm"@, ".html"@, ".pdf"@, ".shtml"@, ".svg"@, ".webp"@, ".xht"@, ".xhtml"@]
}

/// Display name, icon and open command of the class, then of the client.
pub open spec fn identity_records(exe_path: Seq<char>) -> Seq<RecordModel> {
    seq![
        RecordModel::text(Group::Identity, CLASS_KEY@, ""@, DISPLAY_NAME@),
        RecordModel::text(Group::Identity, subkey(CLASS_KEY@, "DefaultIcon"@), ""@, icon_reference(exe_path)),
        RecordModel::text(Group::Identity, subkey(CLASS_KEY@, "shell\\open\\command"@), ""@, open_command(exe_path)),
        RecordModel::text(Group::Identity, CLIENT_KEY@, ""@, DISPLAY_NAME@),
        RecordModel::text(Group::Identity, CLIENT_KEY@, "LocalizedString"@, DISPLAY_NAME@),
        RecordModel::text(Group::Identity, subkey(CLIENT_KEY@, "DefaultIcon"@), ""@, icon_reference(exe_path)),
        RecordModel::text(Group::Identity, subkey(CLIENT_KEY@, "shell\\open\\command"@), ""@, open_command(exe_path)),
    ]
}

/// Application name, icon, description, and the menu identifier.
pub open spec fn capability_records(exe_path: Seq<char>) -> Seq<RecordModel> {
    seq![
        RecordModel::text(Group::Capabilities, capabilities_key(), "ApplicationName"@, DISPLAY_NAME@),
        RecordModel::text(Group::Capabilities, capabilities_key(), "ApplicationIcon"@, icon_reference(exe_path)),
        RecordModel::text(Group::Capabilities, capabilities_key(), "ApplicationDescription"@, DESCRIPTION@),
        RecordModel::text(Group::Capabilities, subkey(capabilities_key(), "Startmenu"@), "StartMenuInternet"@, CANONICAL_NAME@),
    ]
}

/// One record for each name in `names`, all under `key`, all pointing to the program identifier.
pub open spec fn association_records(group: Group, key: Seq<char>, names: Seq<Seq<char>>) -> Seq<RecordModel> {
    Seq::new(names.len(), |i: int| RecordModel::text(group, key, names[i], PROGID@))
}

/// The reinstall, hide-icons and show-icons commands.
pub open spec fn lifecycle_records(exe_path: Seq<char>) -> Seq<RecordModel> {
    seq![
        RecordModel::text(Group::Lifecycle, install_info_key(), "ReinstallCommand"@, lifecycle_command(exe_path, REGISTER_COMMAND@)),
        RecordModel::text(Group::Lifecycle, install_info_key(), "HideIconsCommand"@, lifecycle_command(exe_path, HIDE_ICONS_COMMAND@)),
        RecordModel::text(Group::Lifecycle, install_info_key(), "ShowIconsCommand"@, lifecycle_command(exe_path, SHOW_ICONS_COMMAND@)),
    ]
}

/// The icons-visible flag: visible by default, and never overwritten.
pub open spec fn visibility_records() -> Seq<RecordModel> {
    seq![
        RecordModel::flag(Group::Visibility, install_info_key(), "IconsVisible"@, 1, Policy::KeepExisting),
    ]
}

/// The pointer from the display name to the capabilities.
pub open spec fn announcement_records() -> Seq<RecordModel> {
    seq![
        RecordModel::text(Group::Announcement, REGISTERED_APPLICATIONS_KEY@, DISPLAY_NAME@, capabilities_key()),
    ]
}

/// The executable's full path, and the flag that says it takes URLs as they are.
pub open spec fn app_path_records(exe_path: Seq<char>, exe_name: Seq<char>) -> Seq<RecordModel> {
    seq![
        RecordModel::text(Group::AppPath, app_path_key(exe_name), ""@, exe_path),
        RecordModel::flag(Group::AppPath, app_path_key(exe_name), "UseUrl"@, 1, Policy::Overwrite),
    ]
}

/// All the records of a registration, group after group.
pub open spec fn registration_schema(exe_path: Seq<char>, exe_name: Seq<char>) -> Seq<RecordModel> {
    identity_records(exe_path)
        + capability_records(exe_path)
        + association_records(Group::Protocols, url_associations_key(), handled_schemes())
        + association_records(Group::FileTypes, file_associations_key(), handled_extensions())
        + lifecycle_records(exe_path)
        + visibility_records()
        + announcement_records()
        + app_path_records(exe_path, exe_name)
}

/// Builds the path of a child key.
pub fn make_subkey(parent: &str, child: &str) -> (path: String)
    ensures
        path@ == subkey(parent@, child@),
{
    let mut path = String::from_str(parent);
    path.append("\\");
    path.append(child);
    path
}

/// Puts the executable's path between double quotes.
pub fn make_quoted(exe_path: &str) -> (text: String)
    ensures
        text@ == quoted(exe_path@),
{
    let mut text = String::from_str("\"");
    text.append(exe_path);
    text.append("\"");
    text
}

/// Builds the icon reference for the executable.
pub fn make_icon_reference(exe_path: &str) -> (text: String)
    ensures
        text@ == icon_reference(exe_path@),
{
    let mut text = make_quoted(exe_path);
    text.append(",0");
    text
}

/// Builds the open command for the executable.
pub fn make_open_command(exe_path: &str) -> (text: String)
    ensures
        text@ == open_command(exe_path@),
{
    let mut text = make_quoted(exe_path);
    text.append(" \"%1\"");
    text
}

/// Builds the command that calls the executable again with `argument`.
pub fn make_lifecycle_command(exe_path: &str, argument: &str) -> (text: String)
    ensures
        text@ == lifecycle_command(exe_path@, argument@),
{
    let mut text = make_quoted(exe_path);
    text.append(" ");
    text.append(argument);
    text
}

/// Adds one record at the end of `records`.
fn append(records: &mut Vec<Record>, record: Record)
    ensures
        final(records).deep_view() == old(records).deep_view().push(record@),
{
    records.push(record);
    assert(records.deep_view() =~= old(records).deep_view().push(record@));
}

/// Adds the identity group.
fn add_identity(records: &mut Vec<Record>, exe_path: &str)
    ensures
        final(records).deep_view() == old(records).deep_view() + identity_records(exe_path@),
{
    let group = Group::Identity;
    append(records, Record::text(group, String::from_str(CLASS_KEY), "", String::from_str(DISPLAY_NAME)));
    append(records, Record::text(group, make_subkey(CLASS_KEY, "DefaultIcon"), "", make_icon_reference(exe_path)));
    append(records, Record::text(group, make_subkey(CLASS_KEY, "shell\\open\\command"), "", make_open_command(exe_path)));
    append(records, Record::text(group, String::from_str(CLIENT_KEY), "", String::from_str(DISPLAY_NAME)));
    append(records, Record::text(group, String::from_str(CLIENT_KEY), "LocalizedString", String::from_str(DISPLAY_NAME)));
    append(records, Record::text(group, make_subkey(CLIENT_KEY, "DefaultIcon"), "", make_icon_reference(exe_path)));
    append(records, Record::text(group, make_subkey(CLIENT_KEY, "shell\\open\\command"), "", make_open_command(exe_path)));
    assert(records.deep_view() =~= old(records).deep_view() + identity_records(exe_path@));
}

/// Adds the capabilities group.
fn add_capabilities(records: &mut Vec<Record>, exe_path: &str)
    ensures
        final(records).deep_view() == old(records).deep_view() + capability_records(exe_path@),
{
    let group = Group::Capabilities;
    let key = make_subkey(CLIENT_KEY, "Capabilities");
    append(records, Record::text(group, key.clone(), "ApplicationName", String::from_str(DISPLAY_NAME)));
    append(records, Record::text(group, key.clone(), "ApplicationIcon", make_icon_reference(exe_path)));
    append(records, Record::text(group, key.clone(), "ApplicationDescription", String::from_str(DESCRIPTION)));
    append(records, Record::text(group, make_subkey(key.as_str(), "Startmenu"), "StartMenuInternet", String::from_str(CANONICAL_NAME)));
    assert(records.deep_view() =~= old(records).deep_view() + capability_records(exe_path@));
}

/// Adds one association with the program identifier for each of `names`.
fn add_associations(records: &mut Vec<Record>, group: Group, key: &str, names: &Vec<&'static str>)
    ensures
        final(records).deep_view() == old(records).deep_view() + association_records(group, key@, names.deep_view()),
{
    let mut index: usize = 0;
    while index < names.len()
        invariant
            index <= names.len(),
            records.deep_view() == old(records).deep_view() + association_records(group, key@, names.deep_view()).take(index as int),
        decreases names.len() - index,
    {
        append(records, Record::text(group, String::from_str(key), names[index], String::from_str(PROGID)));
        index += 1;
        assert(records.deep_view() =~= old(records).deep_view() + association_records(group, key@, names.deep_view()).take(index as int));
    }
    assert(association_records(group, key@, names.deep_view()).take(index as int) =~= association_records(group, key@, names.deep_view()));
}

/// Adds the lifecycle group.
fn add_lifecycle(records: &mut Vec<Record>, exe_path: &str)
    ensures
        final(records).deep_view() == old(records).deep_view() + lifecycle_records(exe_path@),
{
    let group = Group::Lifecycle;
    let key = make_subkey(CLIENT_KEY, "InstallInfo");
    append(records, Record::text(group, key.clone(), "ReinstallCommand", make_lifecycle_command(exe_path, REGISTER_COMMAND)));
    append(records, Record::text(group, key.clone(), "HideIconsCommand", make_lifecycle_command(exe_path, HIDE_ICONS_COMMAND)));
    append(records, Record::text(group, key, "ShowIconsCommand", make_lifecycle_command(exe_path, SHOW_ICONS_COMMAND)));
    assert(records.deep_view() =~= old(records).deep_view() + lifecycle_records(exe_path@));
}

/// Adds the visibility, announcement and application-path groups.
fn add_shell_entries(records: &mut Vec<Record>, exe_path: &str, exe_name: &str)
    ensures
        final(records).deep_view() == old(records).deep_view() + visibility_records() + announcement_records()
            + app_path_records(exe_path@, exe_name@),
{
    let install_info = make_subkey(CLIENT_KEY, "InstallInfo");
    append(records, Record::flag(Group::Visibility, install_info, "IconsVisible", 1, Policy::KeepExisting));
    let capabilities = make_subkey(CLIENT_KEY, "Capabilities");
    append(records, Record::text(Group::Announcement, String::from_str(REGISTERED_APPLICATIONS_KEY), DISPLAY_NAME, capabilities));
    let app_path = make_subkey(APP_PATHS_KEY, exe_name);
    append(records, Record::text(Group::AppPath, app_path.clone(), "", String::from_str(exe_path)));
    append(records, Record::flag(Group::AppPath, app_path, "UseUrl", 1, Policy::Overwrite));
    assert(records.deep_view() =~= old(records).deep_view() + visibility_records() + announcement_records()
        + app_path_records(exe_path@, exe_name@));
}

/// The URL schemes handled, as the shell spells them.
pub fn schemes() -> (names: Vec<&'static str>)
    ensures
        names.deep_view() == handled_schemes(),
{
    let names = vec![CUSTOM_SCHEME, "ftp", "http", "https", "webcal"];
    assert(names.deep_view() =~= handled_schemes());
    names
}

/// The file extensions handled, each with its dot.
pub fn extensions() -> (names: Vec<&'static str>)
    ensures
        names.deep_view() == handled_extensions(),
{
    let names = vec![".htm", ".html", ".pdf", ".shtml", ".svg", ".webp", ".xht", ".xhtml"];
    assert(names.deep_view() =~= handled_extensions());
    names
}

/// Lists every record of a registration of the executable at `exe_path`,
/// whose file name is `exe_name`, in the order in which they are written.
pub fn registration_records(exe_path: &str, exe_name: &str) -> (records: Vec<Record>)
    ensures
        records.deep_view() == registration_schema(exe_path@, exe_name@),
{
    let mut records: Vec<Record> = Vec::new();
    assert(records.deep_view() =~= Seq::<RecordModel>::empty());
    add_identity(&mut records, exe_path);
    add_capabilities(&mut records, exe_path);
    let capabilities = make_subkey(CLIENT_KEY, "Capabilities");
    let url_associations = make_subkey(capabilities.as_str(), "URLAssociations");
    add_associations(&mut records, Group::Protocols, url_associations.as_str(), &schemes());
    let file_associations = make_subkey(capabilities.as_str(), "FileAssociations");
    add_associations(&mut records, Group::FileTypes, file_associations.as_str(), &extensions());
    add_lifecycle(&mut records, exe_path);
    add_shell_entries(&mut records, exe_path, exe_name);
    assert(records.deep_view() =~= registration_schema(exe_path@, exe_name@));
    records
}

} // verus!

use crate::document::{
    entries_model, find_value, items_model, lookup, read_document, toml_parse, Entry, Fields,
    Item, Node,
};
use crate::text::{joined_text, optional_text, texts};
use vstd::string::*;
use vstd::prelude::*;

verus! {

/// The resolved settings of one deployment target.
#[derive(Debug, PartialEq, Eq)]
pub struct Scope {
    pub hosts: Vec<String>,
    pub export_path: String,
    pub registry: String,
    pub registry_auth_config: String,
    pub registry_export_auth_config: String,
    pub docker_compose_overrides: Vec<String>,
    pub ssh_private_key: Option<String>,
}

/// The content of a `Scope`.
pub struct ScopeView {
    pub hosts: Seq<Seq<char>>,
    pub export_path: Seq<char>,
    pub registry: Seq<char>,
    pub registry_auth_config: Seq<char>,
    pub registry_export_auth_config: Seq<char>,
    pub docker_compose_overrides: Seq<Seq<char>>,
    pub ssh_private_key: Option<Seq<char>>,
}

impl View for Scope {
    type V = ScopeView;

    open spec fn view(&self) -> ScopeView {
        ScopeView {
            hosts: texts(self.hosts@),
            export_path: self.export_path@,
            registry: self.registry@,
            registry_auth_config: self.registry_auth_config@,
            registry_export_auth_config: self.registry_export_auth_config@,
            docker_compose_overrides: texts(self.docker_compose_overrides@),
            ssh_private_key: optional_text(self.ssh_private_key),
        }
    }
}

/// The whole resolved configuration.
#[derive(Debug, PartialEq, Eq)]
pub struct Configuration {
    pub path: String,
    pub docker_compose_file: String,
    pub environments: Vec<Scope>,
}

/// The content of a `Configuration`.
pub struct ConfigurationView {
    pub path: Seq<char>,
    pub docker_compose_file: Seq<char>,
    pub environments: Seq<ScopeView>,
}

/// The content of each scope of a sequence.
pub open spec fn scopes_view(scopes: Seq<Scope>) -> Seq<ScopeView> {
    Seq::new(scopes.len(), |i: int| scopes[i]@)
}

impl View for Configuration {
    type V = ConfigurationView;

    open spec fn view(&self) -> ConfigurationView {
        ConfigurationView {
            path: self.path@,
            docker_compose_file: self.docker_compose_file@,
            environments: scopes_view(self.environments@),
        }
    }
}

/// Why a document resolves to no configuration.
#[derive(Debug, PartialEq, Eq)]
pub enum ConfigError {
    /// The text is no document, or the document's root is no table.
    Malformed { message: String },
    /// A required key is in neither the environment's table nor the base scope.
    MissingKey { key: String },
    /// The value that a key resolves to has the wrong type.
    WrongType { key: String },
}

/// The content of a `ConfigError`: its kind and the key it names.
pub enum Fault {
    Malformed,
    MissingKey(Seq<char>),
    WrongType(Seq<char>),
}

impl View for ConfigError {
    type V = Fault;

    open spec fn view(&self) -> Fault {
        match self {
            ConfigError::Malformed { .. } => Fault::Malformed,
            ConfigError::MissingKey { key } => Fault::MissingKey(key@),
            ConfigError::WrongType { key } => Fault::WrongType(key@),
        }
    }
}

impl ConfigError {
    /// The text of the error for a reader.
    pub open spec fn message_text(self) -> Seq<char> {
        match self {
            ConfigError::Malformed { message } => "Config parsing error: "@ + message@,
            ConfigError::MissingKey { key } => "Can't find config value for `"@ + key@
                + "` key."@,
            ConfigError::WrongType { key } => "Wrong type of config value for `"@ + key@
                + "` key."@,
        }
    }

    /// Words the error for a reader, with the key that it is about.
    pub fn message(&self) -> (text: String)
        ensures
            text@ == self.message_text(),
    {
        match self {
            ConfigError::Malformed { message } => joined_text(
                "Config parsing error: ",
                message.as_str(),
            ),
            ConfigError::MissingKey { key } => {
                let mut text = joined_text("Can't find config value for `", key.as_str());
                text.append("` key.");
                text
            },
            ConfigError::WrongType { key } => {
                let mut text = joined_text("Wrong type of config value for `", key.as_str());
                text.append("` key.");
                text
            },
        }
    }
}

/// The value that `key` resolves to for an environment: the one in its own
/// table, else the one in the base scope.
pub open spec fn inherited(
    current: Fields,
    base: Fields,
    key: Seq<char>,
) -> Option<Node> {
    match lookup(current, key) {
        Some(node) => Some(node),
        None => lookup(base, key),
    }
}

/// A field that must be present: its absence is a fault.
pub open spec fn demanded<T>(field: Result<Option<T>, Fault>, key: Seq<char>) -> Result<
    Option<T>,
    Fault,
> {
    match field {
        Ok(None) => Err(Fault::MissingKey(key)),
        _ => field,
    }
}

/// The string that `key` resolves to, `None` where the key is absent.
pub open spec fn text_field(
    current: Fields,
    base: Fields,
    key: Seq<char>,
) -> Result<Option<Seq<char>>, Fault> {
    match inherited(current, base, key) {
        None => Ok(None),
        Some(Node::Text(text)) => Ok(Some(text)),
        Some(_) => Err(Fault::WrongType(key)),
    }
}

/// Whether every item of an array is a string.
pub open spec fn all_text(items: Seq<Node>) -> bool {
    forall|i: int| 0 <= i < items.len() ==> (#[trigger] items[i]) is Text
}

/// The strings of an array of strings.
pub open spec fn texts_of(items: Seq<Node>) -> Seq<Seq<char>> {
    Seq::new(items.len(), |i: int| items[i]->Text_0)
}

/// The array of strings that `key` resolves to, `None` where the key is absent.
pub open spec fn list_field(
    current: Fields,
    base: Fields,
    key: Seq<char>,
) -> Result<Option<Seq<Seq<char>>>, Fault> {
    match inherited(current, base, key) {
        None => Ok(None),
        Some(Node::List(items)) => if all_text(items) {
            Ok(Some(texts_of(items)))
        } else {
            Err(Fault::WrongType(key))
        },
        Some(_) => Err(Fault::WrongType(key)),
    }
}

/// The content of what a field lookup returns.
pub open spec fn text_outcome(found: Result<Option<String>, ConfigError>) -> Result<
    Option<Seq<char>>,
    Fault,
> {
    match found {
        Ok(text) => Ok(optional_text(text)),
        Err(error) => Err(error@),
    }
}

/// The content of what an array lookup returns.
pub open spec fn list_outcome(found: Result<Option<Vec<String>>, ConfigError>) -> Result<
    Option<Seq<Seq<char>>>,
    Fault,
> {
    match found {
        Ok(Some(list)) => Ok(Some(texts(list@))),
        Ok(None) => Ok(None),
        Err(error) => Err(error@),
    }
}

/// Resolves a string field: the environment's own value, else the base
/// scope's; a value that is no string is a fault, and so is the absence of a
/// required field.
pub fn get_string_value(
    current: &Vec<Entry>,
    base: &Vec<Entry>,
    key: &str,
    required: bool,
) -> (found: Result<Option<String>, ConfigError>)
    ensures
        text_outcome(found) == if required {
            demanded(text_field(entries_model(current@), entries_model(base@), key@), key@)
        } else {
            text_field(entries_model(current@), entries_model(base@), key@)
        },
{
    let chosen = match find_value(current, key) {
        Some(item) => Some(item),
        None => find_value(base, key),
    };
    match chosen {
        Some(Item::Text(text)) => Ok(Some(text.clone())),
        Some(_) => Err(ConfigError::WrongType { key: key.to_owned() }),
        None => if required {
            Err(ConfigError::MissingKey { key: key.to_owned() })
        } else {
            Ok(None)
        },
    }
}

/// The strings of an array, or `None` where an item is no string.
pub fn string_items(items: &Vec<Item>) -> (strings: Option<Vec<String>>)
    ensures
        match strings {
            Some(list) => all_text(items_model(items@)) && texts(list@) == texts_of(
                items_model(items@),
            ),
            None => !all_text(items_model(items@)),
        },
{
    let mut list: Vec<String> = Vec::new();
    let mut i: usize = 0;
    while i < items.len()
        invariant
            i <= items.len(),
            list.len() == i,
            forall|j: int| 0 <= j < i ==> items[j].model() == Node::Text(#[trigger] list[j]@),
        decreases items.len() - i,
    {
        match &items[i] {
            Item::Text(text) => {
                list.push(text.clone());
            },
            _ => {
                assert(!(items_model(items@)[i as int] is Text));
                return None;
            },
        }
        i += 1;
    }
    proof {
        assert forall|j: int| 0 <= j < items.len() implies (#[trigger] items_model(
            items@,
        )[j]) is Text by {
            assert(items[j].model() == Node::Text(list[j]@));
        }
        assert(texts(list@) =~= texts_of(items_model(items@))) by {
            assert forall|j: int| 0 <= j < list.len() implies texts(list@)[j] == texts_of(
                items_model(items@),
            )[j] by {
                assert(items[j].model() == Node::Text(list[j]@));
            }
        }
    }
    Some(list)
}

/// Resolves a field that holds an array of strings, as `get_string_value` does
/// a string.
pub fn get_string_array_value(
    current: &Vec<Entry>,
    base: &Vec<Entry>,
    key: &str,
    required: bool,
) -> (found: Result<Option<Vec<String>>, ConfigError>)
    ensures
        list_outcome(found) == if required {
            demanded(list_field(entries_model(current@), entries_model(base@), key@), key@)
        } else {
            list_field(entries_model(current@), entries_model(base@), key@)
        },
{
    let chosen = match find_value(current, key) {
        Some(item) => Some(item),
        None => find_value(base, key),
    };
    match chosen {
        Some(Item::List(items)) => {
            proof {
                chosen.unwrap().lemma_model();
            }
            match string_items(items) {
                Some(list) => Ok(Some(list)),
                None => Err(ConfigError::WrongType { key: key.to_owned() }),
            }
        },
        Some(_) => Err(ConfigError::WrongType { key: key.to_owned() }),
        None => if required {
            Err(ConfigError::MissingKey { key: key.to_owned() })
        } else {
            Ok(None)
        },
    }
}

/// The scope that an environment's own table resolves to over a base scope.
/// The fields are resolved in a fixed order, and the first fault is the result.
pub open spec fn scope_of(current: Fields, base: Fields) -> Result<
    ScopeView,
    Fault,
> {
    let registry = demanded(text_field(current, base, "registry"@), "registry"@);
    let hosts = demanded(list_field(current, base, "hosts"@), "hosts"@);
    let registry_auth_config = demanded(
        text_field(current, base, "registry_auth_config"@),
        "registry_auth_config"@,
    );
    let registry_export_auth_config = demanded(
        text_field(current, base, "registry_export_auth_config"@),
        "registry_export_auth_config"@,
    );
    let docker_compose_overrides = demanded(
        list_field(current, base, "docker_compose_overrides"@),
        "docker_compose_overrides"@,
    );
    let ssh_private_key = text_field(current, base, "ssh_private_key"@);
    let export_path = demanded(text_field(current, base, "export_path"@), "export_path"@);
    if registry is Err {
        Err(registry->Err_0)
    } else if hosts is Err {
        Err(hosts->Err_0)
    } else if registry_auth_config is Err {
        Err(registry_auth_config->Err_0)
    } else if registry_export_auth_config is Err {
        Err(registry_export_auth_config->Err_0)
    } else if docker_compose_overrides is Err {
        Err(docker_compose_overrides->Err_0)
    } else if ssh_private_key is Err {
        Err(ssh_private_key->Err_0)
    } else if export_path is Err {
        Err(export_path->Err_0)
    } else {
        Ok(
            ScopeView {
                hosts: hosts->Ok_0->Some_0,
                export_path: export_path->Ok_0->Some_0,
                registry: registry->Ok_0->Some_0,
                registry_auth_config: registry_auth_config->Ok_0->Some_0,
                registry_export_auth_config: registry_export_auth_config->Ok_0->Some_0,
                docker_compose_overrides: docker_compose_overrides->Ok_0->Some_0,
                ssh_private_key: ssh_private_key->Ok_0,
            },
        )
    }
}

/// The content of what resolving one scope returns.
pub open spec fn scope_outcome(made: Result<Scope, ConfigError>) -> Result<ScopeView, Fault> {
    match made {
        Ok(scope) => Ok(scope@),
        Err(error) => Err(error@),
    }
}

/// Resolves the scope of one environment from its own table and the base
/// scope.
pub fn make_parsing_scope(current: &Vec<Entry>, base: &Vec<Entry>) -> (made: Result<
    Scope,
    ConfigError,
>)
    ensures
        scope_outcome(made) == scope_of(entries_model(current@), entries_model(base@)),
{
    let registry = match get_string_value(current, base, "registry", true) {
        Ok(Some(text)) => text,
        Ok(None) => return Err(ConfigError::MissingKey { key: "registry".to_owned() }),
        Err(error) => return Err(error),
    };
    let hosts = match get_string_array_value(current, base, "hosts", true) {
        Ok(Some(list)) => list,
        Ok(None) => return Err(ConfigError::MissingKey { key: "hosts".to_owned() }),
        Err(error) => return Err(error),
    };
    let registry_auth_config = match get_string_value(
        current,
        base,
        "registry_auth_config",
        true,
    ) {
        Ok(Some(text)) => text,
        Ok(None) => return Err(
            ConfigError::MissingKey { key: "registry_auth_config".to_owned() },
        ),
        Err(error) => return Err(error),
    };
    let registry_export_auth_config = match get_string_value(
        current,
        base,
        "registry_export_auth_config",
        true,
    ) {
        Ok(Some(text)) => text,
        Ok(None) => return Err(
            ConfigError::MissingKey { key: "registry_export_auth_config".to_owned() },
        ),
        Err(error) => return Err(error),
    };
    let docker_compose_overrides = match get_string_array_value(
        current,
        base,
        "docker_compose_overrides",
        true,
    ) {
        Ok(Some(list)) => list,
        Ok(None) => return Err(
            ConfigError::MissingKey { key: "docker_compose_overrides".to_owned() },
        ),
        Err(error) => return Err(error),
    };
    let ssh_private_key = match get_string_value(current, base, "ssh_private_key", false) {
        Ok(found) => found,
        Err(error) => return Err(error),
    };
    let export_path = match get_string_value(current, base, "export_path", true) {
        Ok(Some(text)) => text,
        Ok(None) => return Err(ConfigError::MissingKey { key: "export_path".to_owned() }),
        Err(error) => return Err(error),
    };
    Ok(
        Scope {
            hosts,
            export_path,
            registry,
            registry_auth_config,
            registry_export_auth_config,
            docker_compose_overrides,
            ssh_private_key,
        },
    )
}

/// Whether an entry of the `environments` table is a shared default: any
/// entry whose value is no table.
pub open spec fn is_default(entry: (Seq<char>, Node)) -> bool {
    !(entry.1 is Table)
}

/// The base scope: the entries of the `environments` table that are shared
/// defaults, in their order.
pub open spec fn base_scope(entries: Fields) -> Fields {
    entries.filter(|entry: (Seq<char>, Node)| is_default(entry))
}

/// The tables of the named environments: the values of the entries of the
/// `environments` table that are tables, in their order.
pub open spec fn named_scopes(entries: Fields) -> Seq<Fields> {
    entries.filter(|entry: (Seq<char>, Node)| !is_default(entry)).map_values(
        |entry: (Seq<char>, Node)| entry.1->Table_0,
    )
}

/// What one more entry adds to the base scope and to the named environments:
/// a shared default joins the base scope, a table the named environments.
proof fn lemma_one_more_entry(entries: Fields)
    requires
        entries.len() > 0,
    ensures
        base_scope(entries) == if is_default(entries.last()) {
            base_scope(entries.drop_last()).push(entries.last())
        } else {
            base_scope(entries.drop_last())
        },
        named_scopes(entries) == if is_default(entries.last()) {
            named_scopes(entries.drop_last())
        } else {
            named_scopes(entries.drop_last()).push(entries.last().1->Table_0)
        },
{
    reveal(Seq::filter);
    let tables = |entry: (Seq<char>, Node)| !is_default(entry);
    let value = |entry: (Seq<char>, Node)| entry.1->Table_0;
    let before = entries.drop_last().filter(tables);
    if !is_default(entries.last()) {
        assert(entries.filter(tables) == before.push(entries.last()));
        assert(before.push(entries.last()).map_values(value) =~= before.map_values(value).push(
            entries.last().1->Table_0,
        ));
    }
}

/// The scopes that a sequence of environment tables resolves to over a base
/// scope, in their order; the fault of the first table that has one.
pub open spec fn scopes_of(tables: Seq<Fields>, base: Fields) -> Result<
    Seq<ScopeView>,
    Fault,
>
    decreases tables.len(),
{
    if tables.len() == 0 {
        Ok(Seq::empty())
    } else {
        match scopes_of(tables.drop_last(), base) {
            Err(fault) => Err(fault),
            Ok(scopes) => match scope_of(tables.last(), base) {
                Err(fault) => Err(fault),
                Ok(scope) => Ok(scopes.push(scope)),
            },
        }
    }
}

/// A fault among the first tables is the fault of the whole sequence.
proof fn lemma_fault_stays(
    tables: Seq<Fields>,
    base: Fields,
    count: int,
)
    requires
        0 <= count <= tables.len(),
        scopes_of(tables.subrange(0, count), base) is Err,
    ensures
        scopes_of(tables, base) == scopes_of(tables.subrange(0, count), base),
    decreases tables.len() - count,
{
    if count == tables.len() {
        assert(tables.subrange(0, count) =~= tables);
    } else {
        let longer = tables.subrange(0, count + 1);
        assert(longer.drop_last() =~= tables.subrange(0, count));
        lemma_fault_stays(tables, base, count + 1);
    }
}

/// The tables of the named environments grow with the entries read.
proof fn lemma_named_scopes_prefix(entries: Fields, count: int)
    requires
        0 <= count <= entries.len(),
    ensures
        named_scopes(entries.subrange(0, count)).len() <= named_scopes(entries).len(),
        named_scopes(entries.subrange(0, count)) == named_scopes(entries).subrange(
            0,
            named_scopes(entries.subrange(0, count)).len() as int,
        ),
    decreases entries.len() - count,
{
    if count == entries.len() {
        assert(entries.subrange(0, count) =~= entries);
        assert(named_scopes(entries) =~= named_scopes(entries).subrange(
            0,
            named_scopes(entries).len() as int,
        ));
    } else {
        let longer = entries.subrange(0, count + 1);
        assert(longer.drop_last() =~= entries.subrange(0, count));
        lemma_one_more_entry(longer);
        lemma_named_scopes_prefix(entries, count + 1);
        let shorter = named_scopes(entries.subrange(0, count));
        assert(shorter =~= named_scopes(entries).subrange(0, shorter.len() as int));
    }
}

/// The environments of a document, from the entries of its root table: none
/// without an `environments` key; else one for each named table under it.
pub open spec fn environments_of(root: Fields) -> Result<Seq<ScopeView>, Fault> {
    match lookup(root, "environments"@) {
        None => Ok(Seq::empty()),
        Some(Node::Table(table)) => scopes_of(named_scopes(table), base_scope(table)),
        Some(_) => Err(Fault::WrongType("environments"@)),
    }
}

/// A string setting of the root table, with the value it has when absent.
pub open spec fn setting(root: Fields, key: Seq<char>, default: Seq<char>) -> Result<
    Seq<char>,
    Fault,
> {
    match lookup(root, key) {
        None => Ok(default),
        Some(Node::Text(text)) => Ok(text),
        Some(_) => Err(Fault::WrongType(key)),
    }
}

/// The configuration that a document resolves to, or the first fault met:
/// environments first, then `path`, then `docker_compose_file`.
pub open spec fn configuration_of(document: Node) -> Result<ConfigurationView, Fault> {
    match document {
        Node::Table(root) => {
            let environments = environments_of(root);
            let path = setting(root, "path"@, "."@);
            let docker_compose_file = setting(
                root,
                "docker_compose_file"@,
                "docker-compose.yaml"@,
            );
            if environments is Err {
                Err(environments->Err_0)
            } else if path is Err {
                Err(path->Err_0)
            } else if docker_compose_file is Err {
                Err(docker_compose_file->Err_0)
            } else {
                Ok(
                    ConfigurationView {
                        path: path->Ok_0,
                        docker_compose_file: docker_compose_file->Ok_0,
                        environments: environments->Ok_0,
                    },
                )
            }
        },
        _ => Err(Fault::Malformed),
    }
}

/// The content of what resolving a document returns.
pub open spec fn outcome(resolved: Result<Configuration, ConfigError>) -> Result<
    ConfigurationView,
    Fault,
> {
    match resolved {
        Ok(configuration) => Ok(configuration@),
        Err(error) => Err(error@),
    }
}

/// Copies the shared defaults out of the `environments` table.
pub fn base_entries(table: &Vec<Entry>) -> (base: Vec<Entry>)
    ensures
        entries_model(base@) == base_scope(entries_model(table@)),
{
    let ghost all = entries_model(table@);
    let mut base: Vec<Entry> = Vec::new();
    let mut i: usize = 0;
    proof {
        reveal(Seq::filter);
        assert(entries_model(base@) =~= base_scope(all.subrange(0, 0)));
    }
    while i < table.len()
        invariant
            i <= table.len(),
            all == entries_model(table@),
            entries_model(base@) == base_scope(all.subrange(0, i as int)),
        decreases table.len() - i,
    {
        let entry = &table[i];
        let ghost before = entries_model(base@);
        proof {
            let longer = all.subrange(0, i + 1);
            assert(longer.drop_last() =~= all.subrange(0, i as int));
            assert(longer.last() == all[i as int]);
            lemma_one_more_entry(longer);
        }
        match &entry.value {
            Item::Table(_) => {},
            other => {
                base.push(Entry { key: entry.key.clone(), value: other.duplicate() });
                assert(entries_model(base@) =~= before.push(all[i as int]));
            },
        }
        i += 1;
    }
    assert(all.subrange(0, all.len() as int) =~= all);
    base
}

/// Resolves every named environment of the `environments` table over its
/// shared defaults.
pub fn resolve_environments(table: &Vec<Entry>) -> (resolved: Result<Vec<Scope>, ConfigError>)
    ensures
        match resolved {
            Ok(scopes) => Ok::<Seq<ScopeView>, Fault>(scopes_view(scopes@)),
            Err(error) => Err(error@),
        } == scopes_of(
            named_scopes(entries_model(table@)),
            base_scope(entries_model(table@)),
        ),
{
    let ghost all = entries_model(table@);
    let base = base_entries(table);
    let ghost defaults = entries_model(base@);
    let mut scopes: Vec<Scope> = Vec::new();
    let mut i: usize = 0;
    assert(scopes_view(scopes@) =~= Seq::empty());
    while i < table.len()
        invariant
            i <= table.len(),
            all == entries_model(table@),
            defaults == entries_model(base@),
            defaults == base_scope(all),
            scopes_of(named_scopes(all.subrange(0, i as int)), defaults) == Ok::<
                Seq<ScopeView>,
                Fault,
            >(scopes_view(scopes@)),
        decreases table.len() - i,
    {
        let ghost shorter = named_scopes(all.subrange(0, i as int));
        let ghost longer = named_scopes(all.subrange(0, i + 1));
        proof {
            assert(all.subrange(0, i + 1).drop_last() =~= all.subrange(0, i as int));
            assert(all.subrange(0, i + 1).last() == all[i as int]);
            lemma_one_more_entry(all.subrange(0, i + 1));
            table[i as int].value.lemma_model();
        }
        match &table[i].value {
            Item::Table(current) => {
                proof {
                    assert(longer == shorter.push(entries_model(current@)));
                    assert(longer.drop_last() =~= shorter);
                }
                match make_parsing_scope(current, &base) {
                    Ok(scope) => {
                        let ghost before = scopes_view(scopes@);
                        scopes.push(scope);
                        assert(scopes_view(scopes@) =~= before.push(scope@));
                    },
                    Err(error) => {
                        proof {
                            assert(longer.last() == entries_model(current@));
                            assert(scopes_of(longer, defaults) == Err::<Seq<ScopeView>, Fault>(
                                error@,
                            ));
                            lemma_named_scopes_prefix(all, i + 1);
                            assert(named_scopes(all).subrange(0, longer.len() as int) == longer);
                            lemma_fault_stays(named_scopes(all), defaults, longer.len() as int);
                        }
                        return Err(error);
                    },
                }
            },
            _ => {},
        }
        i += 1;
    }
    assert(all.subrange(0, all.len() as int) =~= all);
    Ok(scopes)
}

/// Reads a string setting of the root table, or takes its default.
pub fn read_setting(root: &Vec<Entry>, key: &str, default: &str) -> (read: Result<
    String,
    ConfigError,
>)
    ensures
        match read {
            Ok(text) => Ok::<Seq<char>, Fault>(text@),
            Err(error) => Err(error@),
        } == setting(entries_model(root@), key@, default@),
{
    match find_value(root, key) {
        None => Ok(default.to_owned()),
        Some(Item::Text(text)) => Ok(text.clone()),
        Some(_) => Err(ConfigError::WrongType { key: key.to_owned() }),
    }
}

/// Resolves a configuration document into its configuration.
pub fn resolve(document: &Item) -> (resolved: Result<Configuration, ConfigError>)
    ensures
        outcome(resolved) == configuration_of(document.model()),
        !(document is Table) ==> (resolved matches Err(ConfigError::Malformed { message })
            && message@ == "the document is not a table"@),
{
    proof {
        document.lemma_model();
    }
    let root = match document {
        Item::Table(root) => root,
        _ => {
            return Err(
                ConfigError::Malformed { message: "the document is not a table".to_owned() },
            );
        },
    };
    let environments = match find_value(root, "environments") {
        None => {
            let none: Vec<Scope> = Vec::new();
            assert(scopes_view(none@) =~= Seq::empty());
            none
        },
        Some(Item::Table(table)) => {
            proof {
                Item::Table(*table).lemma_model();
            }
            match resolve_environments(table) {
                Ok(scopes) => scopes,
                Err(error) => return Err(error),
            }
        },
        Some(_) => return Err(ConfigError::WrongType { key: "environments".to_owned() }),
    };
    let path = match read_setting(root, "path", ".") {
        Ok(text) => text,
        Err(error) => return Err(error),
    };
    let docker_compose_file = match read_setting(
        root,
        "docker_compose_file",
        "docker-compose.yaml",
    ) {
        Ok(text) => text,
        Err(error) => return Err(error),
    };
    Ok(Configuration { path, docker_compose_file, environments })
}

/// Reads a configuration from the text of its document.
pub fn read_configuration_raw(content: &str) -> (read: Result<Configuration, ConfigError>)
    ensures
        outcome(read) == match toml_parse(content@) {
            Some(document) => configuration_of(document),
            None => Err(Fault::Malformed),
        },
{
    match read_document(content) {
        Ok(document) => resolve(&document),
        Err(error) => Err(ConfigError::Malformed { message: error.message }),
    }
}

/// Whether what was found is the string `text`.
pub open spec fn holds_text(found: Option<Node>, text: Seq<char>) -> bool {
    found == Some(Node::Text(text))
}

/// Whether what was found is the array of the strings `list`.
pub open spec fn holds_list(found: Option<Node>, list: Seq<Seq<char>>) -> bool {
    found matches Some(Node::List(items)) && all_text(items) && texts_of(items) == list
}

/// Whether `key` is one of the required keys of a scope.
pub open spec fn is_required_key(key: Seq<char>) -> bool {
    ||| key == "registry"@
    ||| key == "hosts"@
    ||| key == "registry_auth_config"@
    ||| key == "registry_export_auth_config"@
    ||| key == "docker_compose_overrides"@
    ||| key == "export_path"@
}

/// Whether the fields of a scope are the values that `source` holds for each
/// key that `chosen` says is taken from it.
pub open spec fn taken_from(
    scope: ScopeView,
    source: Fields,
    chosen: spec_fn(Seq<char>) -> bool,
) -> bool {
    &&& chosen("registry"@) ==> holds_text(lookup(source, "registry"@), scope.registry)
    &&& chosen("hosts"@) ==> holds_list(lookup(source, "hosts"@), scope.hosts)
    &&& chosen("registry_auth_config"@) ==> holds_text(
        lookup(source, "registry_auth_config"@),
        scope.registry_auth_config,
    )
    &&& chosen("registry_export_auth_config"@) ==> holds_text(
        lookup(source, "registry_export_auth_config"@),
        scope.registry_export_auth_config,
    )
    &&& chosen("docker_compose_overrides"@) ==> holds_list(
        lookup(source, "docker_compose_overrides"@),
        scope.docker_compose_overrides,
    )
    &&& chosen("export_path"@) ==> holds_text(lookup(source, "export_path"@), scope.export_path)
    &&& chosen("ssh_private_key"@) ==> scope.ssh_private_key is Some && holds_text(
        lookup(source, "ssh_private_key"@),
        scope.ssh_private_key->Some_0,
    )
}

/// A field whose key an environment's own table holds is taken from there,
/// whatever the base scope says of it.
pub proof fn law_own_value_overrides(
    current: Fields,
    base: Fields,
    scope: ScopeView,
)
    requires
        scope_of(current, base) == Ok::<ScopeView, Fault>(scope),
    ensures
        taken_from(scope, current, |key: Seq<char>| lookup(current, key) is Some),
{
}

/// A field whose key an environment's own table does not hold is taken from
/// the base scope where that holds the key.
pub proof fn law_base_value_inherited(
    current: Fields,
    base: Fields,
    scope: ScopeView,
)
    requires
        scope_of(current, base) == Ok::<ScopeView, Fault>(scope),
    ensures
        taken_from(
            scope,
            base,
            |key: Seq<char>| lookup(current, key) is None && lookup(base, key) is Some,
        ),
{
}

/// A required key that is in neither the environment's own table nor the
/// base scope leaves the environment without a scope.
pub proof fn law_missing_required_key_is_fatal(
    current: Fields,
    base: Fields,
    key: Seq<char>,
)
    requires
        is_required_key(key),
        lookup(current, key) is None,
        lookup(base, key) is None,
    ensures
        scope_of(current, base) is Err,
{
}

/// Where every required key resolves, the absence of the optional key from
/// both the environment's own table and the base scope is no fault: the
/// scope then has no identity file.
pub proof fn law_missing_optional_key_is_absent(
    current: Fields,
    base: Fields,
)
    requires
        lookup(current, "ssh_private_key"@) is None,
        lookup(base, "ssh_private_key"@) is None,
    ensures
        text_field(current, base, "ssh_private_key"@) == Ok::<Option<Seq<char>>, Fault>(None),
        scope_of(current, base) matches Ok(scope) ==> scope.ssh_private_key is None,
{
}

/// The scopes of a sequence of tables are as many as the tables, and each is
/// what its table resolves to over the base scope.
proof fn lemma_scopes_follow_tables(
    tables: Seq<Fields>,
    base: Fields,
)
    requires
        scopes_of(tables, base) is Ok,
    ensures
        scopes_of(tables, base)->Ok_0.len() == tables.len(),
        forall|i: int|
            0 <= i < tables.len() ==> scope_of(#[trigger] tables[i], base) == Ok::<
                ScopeView,
                Fault,
            >(scopes_of(tables, base)->Ok_0[i]),
    decreases tables.len(),
{
    if tables.len() > 0 {
        lemma_scopes_follow_tables(tables.drop_last(), base);
        let before = scopes_of(tables.drop_last(), base)->Ok_0;
        assert forall|i: int| 0 <= i < tables.len() implies scope_of(
            #[trigger] tables[i],
            base,
        ) == Ok::<ScopeView, Fault>(scopes_of(tables, base)->Ok_0[i]) by {
            if i < tables.len() - 1 {
                assert(tables.drop_last()[i] == tables[i]);
            }
        }
    }
}

/// A document with a base scope and named environments resolves to one scope
/// for each named environment, in their order, and each is what the
/// environment's own table resolves to over the base scope.
pub proof fn law_one_scope_for_each_environment(
    root: Fields,
    table: Fields,
    configuration: ConfigurationView,
)
    requires
        lookup(root, "environments"@) == Some(Node::Table(table)),
        configuration_of(Node::Table(root)) == Ok::<ConfigurationView, Fault>(configuration),
    ensures
        configuration.environments.len() == named_scopes(table).len(),
        forall|i: int|
            0 <= i < named_scopes(table).len() ==> scope_of(
                #[trigger] named_scopes(table)[i],
                base_scope(table),
            ) == Ok::<ScopeView, Fault>(configuration.environments[i]),
{
    lemma_scopes_follow_tables(named_scopes(table), base_scope(table));
}

/// A named environment that resolves to no scope leaves the whole document
/// without a configuration: so does a required key that is in neither the
/// environment's own table nor the base scope.
pub proof fn law_faulty_environment_is_fatal(root: Fields, table: Fields, i: int)
    requires
        lookup(root, "environments"@) == Some(Node::Table(table)),
        0 <= i < named_scopes(table).len(),
        scope_of(named_scopes(table)[i], base_scope(table)) is Err,
    ensures
        configuration_of(Node::Table(root)) is Err,
{
    if scopes_of(named_scopes(table), base_scope(table)) is Ok {
        lemma_scopes_follow_tables(named_scopes(table), base_scope(table));
    }
}

/// What a document leaves out has its default: no `environments` key gives
/// no environment, no `path` key the directory `.`, and no
/// `docker_compose_file` key the file `docker-compose.yaml`.
pub proof fn law_defaults(root: Fields, configuration: ConfigurationView)
    requires
        configuration_of(Node::Table(root)) == Ok::<ConfigurationView, Fault>(configuration),
    ensures
        lookup(root, "environments"@) is None ==> configuration.environments.len() == 0,
        lookup(root, "path"@) is None ==> configuration.path == "."@,
        lookup(root, "docker_compose_file"@) is None ==> configuration.docker_compose_file
            == "docker-compose.yaml"@,
{
}

/// A document without the three keys of its root resolves, whatever else it
/// holds.
pub proof fn law_bare_document_resolves(root: Fields)
    requires
        lookup(root, "environments"@) is None,
        lookup(root, "path"@) is None,
        lookup(root, "docker_compose_file"@) is None,
    ensures
        configuration_of(Node::Table(root)) == Ok::<ConfigurationView, Fault>(
            ConfigurationView {
                path: "."@,
                docker_compose_file: "docker-compose.yaml"@,
                environments: Seq::empty(),
            },
        ),
{
}

} // verus!

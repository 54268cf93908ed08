//! Configuration: the host registry and the build command list, validated
//! from a parsed configuration document. The document is modelled by
//! [`Node`], which holds exactly what validation inspects: strings, lists,
//! maps, and whether a value was present at all. Every validation rule and
//! every error message is specified and verified here.

use crate::host::{Host, HostSpec};
use vstd::prelude::*;

verus! {

/// One node of a parsed configuration document, as validation sees it.
pub enum Node {
    /// A string scalar.
    Str(String),
    /// A sequence of nodes.
    Array(Vec<Node>),
    /// A mapping, as key/value pairs in document order.
    Hash(Vec<(Node, Node)>),
    /// The result of looking up a key that is not there.
    Missing,
    /// Any other scalar (number, boolean, null, ...): never valid where
    /// configuration is read.
    Other,
}

/// A configuration error, carrying the exact user-facing message.
#[derive(Debug)]
pub struct ConfigError {
    message: String,
}

impl View for ConfigError {
    type V = Seq<char>;

    closed spec fn view(&self) -> Seq<char> {
        self.message@
    }
}

impl ConfigError {
    /// An error with the given message.
    pub fn new(message: String) -> (e: ConfigError)
        ensures
            e@ == message@,
    {
        ConfigError { message }
    }

    /// The user-facing message.
    pub fn message(&self) -> (r: &String)
        ensures
            r@ == self@,
    {
        &self.message
    }
}

/// The validated configuration: the host registry (in document order) and
/// the build command list.
#[derive(Debug)]
pub struct Config {
    /// The host registry; names are distinct.
    pub hosts: Vec<Host>,
    /// The build commands, run on each host in this order.
    pub build: Vec<String>,
}

/// Mathematical image of a [`Config`].
pub struct ConfigSpec {
    pub hosts: Seq<HostSpec>,
    pub build: Seq<Seq<char>>,
}

impl View for Config {
    type V = ConfigSpec;

    open spec fn view(&self) -> ConfigSpec {
        ConfigSpec { hosts: self.hosts.deep_view(), build: self.build.deep_view() }
    }
}

impl Config {
    /// A configuration from its two parts.
    pub fn new(hosts: Vec<Host>, build: Vec<String>) -> (c: Config)
        ensures
            c@.hosts == hosts.deep_view(),
            c@.build == build.deep_view(),
    {
        Config { hosts, build }
    }
}

/// Whether `key` is a string node whose text is `name`.
pub open spec fn is_str_key(key: Node, name: Seq<char>) -> bool {
    match key {
        Node::Str(s) => s@ == name,
        _ => false,
    }
}

/// The value under the first key equal to `name`, if any.
pub open spec fn spec_lookup(entries: Seq<(Node, Node)>, name: Seq<char>) -> Option<Node>
    decreases entries.len(),
{
    if entries.len() == 0 {
        None
    } else if is_str_key(entries[0].0, name) {
        Some(entries[0].1)
    } else {
        spec_lookup(entries.drop_first(), name)
    }
}

/// Looking a key up in a node, as document indexing does: anything but a
/// map, or a map without the key, yields `Missing`.
pub open spec fn spec_index(doc: Node, key: Seq<char>) -> Node {
    match doc {
        Node::Hash(entries) => match spec_lookup(entries@, key) {
            Some(v) => v,
            None => Node::Missing,
        },
        _ => Node::Missing,
    }
}

/// An optional string field of a host's mapping: absent is fine, present
/// but not a string is an error.
pub open spec fn spec_get_optional_str(
    entries: Seq<(Node, Node)>,
    host: Seq<char>,
    name: Seq<char>,
) -> Result<Option<Seq<char>>, Seq<char>> {
    match spec_lookup(entries, name) {
        None => Ok(None),
        Some(Node::Str(s)) => Ok(Some(s@)),
        Some(_) => Err(
            "invalid value for \""@ + name + "\" in host \""@ + host + "\""@,
        ),
    }
}

/// A required string field of a host's mapping.
pub open spec fn spec_get_str(
    entries: Seq<(Node, Node)>,
    host: Seq<char>,
    name: Seq<char>,
) -> Result<Seq<char>, Seq<char>> {
    match spec_get_optional_str(entries, host, name) {
        Ok(Some(s)) => Ok(s),
        Err(e) => Err(e),
        Ok(None) => Err(
            "missing value for \""@ + name + "\" in host \""@ + host + "\""@,
        ),
    }
}

/// One host's entry: a mapping with required `user` and `build_dir` and
/// optional `host` and `identity_file`, all strings.
pub open spec fn spec_parse_host(name: Seq<char>, node: Node) -> Result<HostSpec, Seq<char>> {
    match node {
        Node::Hash(entries) => {
            let user = spec_get_str(entries@, name, "user"@);
            let build_dir = spec_get_str(entries@, name, "build_dir"@);
            let host = spec_get_optional_str(entries@, name, "host"@);
            let identity_file = spec_get_optional_str(entries@, name, "identity_file"@);
            if user is Err {
                Err(user->Err_0)
            } else if build_dir is Err {
                Err(build_dir->Err_0)
            } else if host is Err {
                Err(host->Err_0)
            } else if identity_file is Err {
                Err(identity_file->Err_0)
            } else {
                Ok(
                    HostSpec {
                        name: name,
                        user: user->Ok_0,
                        build_dir: build_dir->Ok_0,
                        host: host->Ok_0,
                        identity_file: identity_file->Ok_0,
                    },
                )
            }
        },
        _ => Err("invalid configuration for host \""@ + name + "\""@),
    }
}

/// Whether some registry entry already carries `name`.
pub open spec fn has_name(s: Seq<HostSpec>, name: Seq<char>) -> bool {
    exists|i: int| 0 <= i < s.len() && s[i].name == name
}

/// Registry insertion: a host with a name already present replaces that
/// entry in place; a new name is appended.
pub open spec fn spec_insert_host(s: Seq<HostSpec>, h: HostSpec) -> Seq<HostSpec>
    decreases s.len(),
{
    if s.len() == 0 {
        seq![h]
    } else if s[0].name == h.name {
        seq![h] + s.drop_first()
    } else {
        seq![s[0]] + spec_insert_host(s.drop_first(), h)
    }
}

/// When the first entry named like `h` sits at `i`, insertion is exactly an
/// update at `i`.
proof fn lemma_insert_at(s: Seq<HostSpec>, h: HostSpec, i: int)
    requires
        0 <= i < s.len(),
        s[i].name == h.name,
        forall|j: int| 0 <= j < i ==> s[j].name != h.name,
    ensures
        spec_insert_host(s, h) =~= s.update(i, h),
    decreases i,
{
    if i == 0 {
        assert(seq![h] + s.drop_first() =~= s.update(0, h));
    } else {
        lemma_insert_at(s.drop_first(), h, i - 1);
        assert(seq![s[0]] + s.drop_first().update(i - 1, h) =~= s.update(i, h));
    }
}

/// When no entry carries `h`'s name, insertion is exactly an append.
proof fn lemma_insert_append(s: Seq<HostSpec>, h: HostSpec)
    requires
        !has_name(s, h.name),
    ensures
        spec_insert_host(s, h) =~= s.push(h),
    decreases s.len(),
{
    if s.len() > 0 {
        assert(!has_name(s.drop_first(), h.name)) by {
            assert(forall|i: int|
                0 <= i < s.drop_first().len() ==> s.drop_first()[i] == s[i + 1]);
        }
        lemma_insert_append(s.drop_first(), h);
        assert(seq![s[0]] + s.drop_first().push(h) =~= s.push(h));
    }
}

/// Folding host entries into the registry, head first.
pub open spec fn spec_hosts_fold(
    entries: Seq<(Node, Node)>,
    acc: Seq<HostSpec>,
) -> Result<Seq<HostSpec>, Seq<char>>
    decreases entries.len(),
{
    if entries.len() == 0 {
        Ok(acc)
    } else {
        match entries[0].0 {
            Node::Str(name) => match spec_parse_host(name@, entries[0].1) {
                Ok(h) => spec_hosts_fold(entries.drop_first(), spec_insert_host(acc, h)),
                Err(e) => Err(e),
            },
            _ => Err("\"hosts\" keys must be strings"@),
        }
    }
}

/// The `hosts` section: must be present and a mapping; every key a string,
/// every value a valid host entry.
pub open spec fn spec_parse_hosts(node: Node) -> Result<Seq<HostSpec>, Seq<char>> {
    match node {
        Node::Missing => Err("missing \"hosts\" configuration"@),
        Node::Hash(entries) => spec_hosts_fold(entries@, Seq::empty()),
        _ => Err("invalid \"hosts\" configuration"@),
    }
}

/// The error every malformed `build` section reports.
pub open spec fn build_err_msg() -> Seq<char> {
    "\"build\" configuration must be a string or an array of strings"@
}

/// The items of a `build` list: every one must be a string.
pub open spec fn spec_build_items(items: Seq<Node>) -> Result<Seq<Seq<char>>, Seq<char>>
    decreases items.len(),
{
    if items.len() == 0 {
        Ok(Seq::empty())
    } else {
        match items[0] {
            Node::Str(s) => match spec_build_items(items.drop_first()) {
                Ok(rest) => Ok(seq![s@] + rest),
                Err(e) => Err(e),
            },
            _ => Err(build_err_msg()),
        }
    }
}

/// The `build` section: a single command string, or a list of them.
pub open spec fn spec_parse_build(node: Node) -> Result<Seq<Seq<char>>, Seq<char>> {
    match node {
        Node::Missing => Err("missing \"build\" configuration"@),
        Node::Str(s) => Ok(seq![s@]),
        Node::Array(items) => spec_build_items(items@),
        _ => Err(build_err_msg()),
    }
}

/// One whole configuration document.
pub open spec fn spec_parse_config_doc(doc: Node) -> Result<ConfigSpec, Seq<char>> {
    match spec_parse_hosts(spec_index(doc, "hosts"@)) {
        Err(e) => Err(e),
        Ok(hosts) => match spec_parse_build(spec_index(doc, "build"@)) {
            Err(e) => Err(e),
            Ok(build) => Ok(ConfigSpec { hosts: hosts, build: build }),
        },
    }
}

/// A parsed configuration file: its first document, which must exist.
pub open spec fn spec_parse_docs(docs: Seq<Node>) -> Result<ConfigSpec, Seq<char>> {
    if docs.len() == 0 {
        Err("no configuration found"@)
    } else {
        spec_parse_config_doc(docs[0])
    }
}

/// The image of an executable configuration result.
pub open spec fn config_result_view(r: Result<Config, ConfigError>) -> Result<
    ConfigSpec,
    Seq<char>,
> {
    match r {
        Ok(c) => Ok(c@),
        Err(e) => Err(e@),
    }
}

/// String equality by content.
fn str_eq(a: &str, b: &str) -> (r: bool)
    ensures
        r == (a@ == b@),
{
    let sa = String::from_str(a);
    let sb = String::from_str(b);
    sa == sb
}

/// The value under the first key equal to `name`, if any.
fn lookup<'a>(entries: &'a Vec<(Node, Node)>, name: &str) -> (r: Option<&'a Node>)
    ensures
        match r {
            Some(n) => spec_lookup(entries@, name@) == Some(*n),
            None => spec_lookup(entries@, name@) is None,
        },
{
    proof {
        assert(entries@.skip(0) =~= entries@);
    }
    let mut i: usize = 0;
    while i < entries.len()
        invariant
            i <= entries.len(),
            spec_lookup(entries@, name@) == spec_lookup(entries@.skip(i as int), name@),
        decreases entries.len() - i,
    {
        proof {
            assert(entries@.skip(i as int)[0] == entries@[i as int]);
        }
        let hit = match &entries[i].0 {
            Node::Str(s) => str_eq(s.as_str(), name),
            _ => false,
        };
        if hit {
            return Some(&entries[i].1);
        }
        proof {
            assert(entries@.skip(i as int).drop_first() =~= entries@.skip(i as int + 1));
        }
        i = i + 1;
    }
    None
}

/// The message for a field that is present but not a string.
fn invalid_value_msg(host: &str, name: &str) -> (r: String)
    ensures
        r@ == "invalid value for \""@ + name@ + "\" in host \""@ + host@ + "\""@,
{
    let mut m = String::from_str("invalid value for \"");
    m.append(name);
    m.append("\" in host \"");
    m.append(host);
    m.append("\"");
    m
}

/// An optional string field of a host's mapping.
fn get_optional_str(entries: &Vec<(Node, Node)>, host: &str, name: &str) -> (r: Result<
    Option<String>,
    ConfigError,
>)
    ensures
        match r {
            Ok(None) => spec_get_optional_str(entries@, host@, name@) == Ok::<
                Option<Seq<char>>,
                Seq<char>,
            >(None),
            Ok(Some(s)) => spec_get_optional_str(entries@, host@, name@) == Ok::<
                Option<Seq<char>>,
                Seq<char>,
            >(Some(s@)),
            Err(e) => spec_get_optional_str(entries@, host@, name@) == Err::<
                Option<Seq<char>>,
                Seq<char>,
            >(e@),
        },
{
    match lookup(entries, name) {
        None => Ok(None),
        Some(node) => match node {
            Node::Str(s) => Ok(Some(s.clone())),
            _ => Err(ConfigError::new(invalid_value_msg(host, name))),
        },
    }
}

/// A required string field of a host's mapping.
fn get_str(entries: &Vec<(Node, Node)>, host: &str, name: &str) -> (r: Result<
    String,
    ConfigError,
>)
    ensures
        match r {
            Ok(s) => spec_get_str(entries@, host@, name@) == Ok::<Seq<char>, Seq<char>>(s@),
            Err(e) => spec_get_str(entries@, host@, name@) == Err::<Seq<char>, Seq<char>>(e@),
        },
{
    match get_optional_str(entries, host, name) {
        Ok(Some(s)) => Ok(s),
        Err(e) => Err(e),
        Ok(None) => {
            let mut m = String::from_str("missing value for \"");
            m.append(name);
            m.append("\" in host \"");
            m.append(host);
            m.append("\"");
            Err(ConfigError::new(m))
        },
    }
}

/// One host's entry of the `hosts` mapping.
fn parse_host(name: &str, node: &Node) -> (r: Result<Host, ConfigError>)
    ensures
        match r {
            Ok(h) => spec_parse_host(name@, *node) == Ok::<HostSpec, Seq<char>>(h@),
            Err(e) => spec_parse_host(name@, *node) == Err::<HostSpec, Seq<char>>(e@),
        },
{
    match node {
        Node::Hash(entries) => {
            let user = match get_str(entries, name, "user") {
                Ok(s) => s,
                Err(e) => {
                    return Err(e);
                },
            };
            let build_dir = match get_str(entries, name, "build_dir") {
                Ok(s) => s,
                Err(e) => {
                    return Err(e);
                },
            };
            let host = match get_optional_str(entries, name, "host") {
                Ok(o) => o,
                Err(e) => {
                    return Err(e);
                },
            };
            let identity_file = match get_optional_str(entries, name, "identity_file") {
                Ok(o) => o,
                Err(e) => {
                    return Err(e);
                },
            };
            Ok(
                Host {
                    name: String::from_str(name),
                    user: user,
                    build_dir: build_dir,
                    host: host,
                    identity_file: identity_file,
                },
            )
        },
        _ => {
            let mut m = String::from_str("invalid configuration for host \"");
            m.append(name);
            m.append("\"");
            Err(ConfigError::new(m))
        },
    }
}

/// Registry insertion: replaces the entry with the same name in place, or
/// appends. Keeps names distinct.
fn insert_host(acc: &mut Vec<Host>, h: Host)
    ensures
        final(acc).deep_view() == spec_insert_host(old(acc).deep_view(), h@),
        crate::engine::distinct_host_names(old(acc).deep_view())
            ==> crate::engine::distinct_host_names(final(acc).deep_view()),
{
    let ghost s = acc.deep_view();
    let mut i: usize = 0;
    while i < acc.len()
        invariant
            i <= acc.len(),
            s == old(acc).deep_view(),
            s == acc.deep_view(),
            forall|j: int| 0 <= j < i ==> s[j].name != h@.name,
        decreases acc.len() - i,
    {
        if str_eq(acc[i].name.as_str(), h.name.as_str()) {
            proof {
                lemma_insert_at(s, h@, i as int);
            }
            acc.set(i, h);
            proof {
                assert(acc.deep_view() =~= s.update(i as int, h@));
                let t = s.update(i as int, h@);
                assert(forall|j: int| 0 <= j < t.len() ==> t[j].name == s[j].name);
                if crate::engine::distinct_host_names(s) {
                    assert forall|j: int, k: int|
                        0 <= j < k < t.len() implies t[j].name != t[k].name by {
                        assert(t[j].name == s[j].name);
                        assert(t[k].name == s[k].name);
                    }
                }
            }
            return ;
        }
        i = i + 1;
    }
    proof {
        assert(!has_name(s, h@.name));
        lemma_insert_append(s, h@);
    }
    acc.push(h);
    proof {
        assert(acc.deep_view() =~= s.push(h@));
        let t = s.push(h@);
        if crate::engine::distinct_host_names(s) {
            assert forall|j: int, k: int|
                0 <= j < k < t.len() implies t[j].name != t[k].name by {
                if k < s.len() {
                    assert(t[j] == s[j] && t[k] == s[k]);
                } else {
                    assert(t[j] == s[j] && t[k] == h@);
                    assert(!(0 <= j < s.len() && s[j].name == h@.name));
                }
            }
        }
    }
}

/// The `hosts` section: the registry, in document order, names distinct.
pub fn parse_hosts(node: &Node) -> (r: Result<Vec<Host>, ConfigError>)
    ensures
        match r {
            Ok(hosts) => spec_parse_hosts(*node) == Ok::<Seq<HostSpec>, Seq<char>>(
                hosts.deep_view(),
            ) && crate::engine::distinct_host_names(hosts.deep_view()),
            Err(e) => spec_parse_hosts(*node) == Err::<Seq<HostSpec>, Seq<char>>(e@),
        },
{
    match node {
        Node::Missing => Err(ConfigError::new(String::from_str("missing \"hosts\" configuration"))),
        Node::Hash(entries) => {
            let mut hosts: Vec<Host> = Vec::new();
            proof {
                assert(entries@.skip(0) =~= entries@);
                assert(hosts.deep_view() =~= Seq::<HostSpec>::empty());
            }
            let mut i: usize = 0;
            while i < entries.len()
                invariant
                    i <= entries.len(),
                    *node == Node::Hash(*entries),
                    spec_hosts_fold(entries@, Seq::empty()) == spec_hosts_fold(
                        entries@.skip(i as int),
                        hosts.deep_view(),
                    ),
                    crate::engine::distinct_host_names(hosts.deep_view()),
                decreases entries.len() - i,
            {
                proof {
                    assert(entries@.skip(i as int)[0] == entries@[i as int]);
                    assert(entries@.skip(i as int).drop_first() =~= entries@.skip(i as int + 1));
                }
                match &entries[i].0 {
                    Node::Str(name) => {
                        match parse_host(name.as_str(), &entries[i].1) {
                            Ok(h) => {
                                insert_host(&mut hosts, h);
                            },
                            Err(e) => {
                                return Err(e);
                            },
                        }
                    },
                    _ => {
                        return Err(
                            ConfigError::new(String::from_str("\"hosts\" keys must be strings")),
                        );
                    },
                }
                i = i + 1;
            }
            Ok(hosts)
        },
        _ => Err(ConfigError::new(String::from_str("invalid \"hosts\" configuration"))),
    }
}

/// The `build` section: one command string or a list of them.
pub fn parse_build(node: &Node) -> (r: Result<Vec<String>, ConfigError>)
    ensures
        match r {
            Ok(build) => spec_parse_build(*node) == Ok::<Seq<Seq<char>>, Seq<char>>(
                build.deep_view(),
            ),
            Err(e) => spec_parse_build(*node) == Err::<Seq<Seq<char>>, Seq<char>>(e@),
        },
{
    match node {
        Node::Missing => Err(ConfigError::new(String::from_str("missing \"build\" configuration"))),
        Node::Str(s) => {
            let mut build: Vec<String> = Vec::new();
            build.push(s.clone());
            proof {
                assert(build.deep_view() =~= seq![s@]);
            }
            Ok(build)
        },
        Node::Array(items) => {
            let mut build: Vec<String> = Vec::new();
            proof {
                assert(items@.skip(0) =~= items@);
                assert(build.deep_view() =~= Seq::<Seq<char>>::empty());
                if spec_build_items(items@) is Ok {
                    assert(Seq::<Seq<char>>::empty() + spec_build_items(items@)->Ok_0
                        =~= spec_build_items(items@)->Ok_0);
                }
            }
            let mut i: usize = 0;
            while i < items.len()
                invariant
                    i <= items.len(),
                    *node == Node::Array(*items),
                    spec_build_items(items@) == match spec_build_items(items@.skip(i as int)) {
                        Ok(rest) => Ok::<Seq<Seq<char>>, Seq<char>>(build.deep_view() + rest),
                        Err(e) => Err::<Seq<Seq<char>>, Seq<char>>(e),
                    },
                decreases items.len() - i,
            {
                proof {
                    assert(items@.skip(i as int)[0] == items@[i as int]);
                    assert(items@.skip(i as int).drop_first() =~= items@.skip(i as int + 1));
                }
                match &items[i] {
                    Node::Str(s) => {
                        let ghost prior = build.deep_view();
                        build.push(s.clone());
                        proof {
                            assert(build.deep_view() =~= prior.push(s@));
                            if spec_build_items(items@.skip(i as int + 1)) is Ok {
                                let rest = spec_build_items(items@.skip(i as int + 1))->Ok_0;
                                assert(prior.push(s@) + rest =~= prior + (seq![s@] + rest));
                            }
                        }
                    },
                    _ => {
                        return Err(
                            ConfigError::new(
                                String::from_str(
                                    "\"build\" configuration must be a string or an array of strings",
                                ),
                            ),
                        );
                    },
                }
                i = i + 1;
            }
            proof {
                assert(build.deep_view() + Seq::<Seq<char>>::empty() =~= build.deep_view());
            }
            Ok(build)
        },
        _ => Err(
            ConfigError::new(
                String::from_str(
                    "\"build\" configuration must be a string or an array of strings",
                ),
            ),
        ),
    }
}

/// One whole configuration document: its `hosts` and `build` sections.
pub fn parse_config_doc(doc: &Node) -> (r: Result<Config, ConfigError>)
    ensures
        config_result_view(r) == spec_parse_config_doc(*doc),
        r matches Ok(c) ==> crate::engine::distinct_host_names(c@.hosts),
{
    let missing = Node::Missing;
    let hosts_node = match doc {
        Node::Hash(entries) => match lookup(entries, "hosts") {
            Some(n) => n,
            None => &missing,
        },
        _ => &missing,
    };
    let hosts = match parse_hosts(hosts_node) {
        Ok(h) => h,
        Err(e) => {
            return Err(e);
        },
    };
    let build_node = match doc {
        Node::Hash(entries) => match lookup(entries, "build") {
            Some(n) => n,
            None => &missing,
        },
        _ => &missing,
    };
    let build = match parse_build(build_node) {
        Ok(b) => b,
        Err(e) => {
            return Err(e);
        },
    };
    Ok(Config::new(hosts, build))
}

/// A parsed configuration file, handed over as its documents: the first
/// document holds the configuration.
pub fn parse_config_docs(docs: &Vec<Node>) -> (r: Result<Config, ConfigError>)
    ensures
        config_result_view(r) == spec_parse_docs(docs@),
        r matches Ok(c) ==> crate::engine::distinct_host_names(c@.hosts),
{
    if docs.len() == 0 {
        Err(ConfigError::new(String::from_str("no configuration found")))
    } else {
        parse_config_doc(&docs[0])
    }
}

#[verifier::external_type_specification]
#[verifier::external_body]
pub struct ExYaml(yaml_rust::Yaml);

/// Names what `yaml_rust::YamlLoader::load_from_str` parses a text to,
/// rendered in the document model: the list of documents, or the scan
/// error's description. Parsing is a function of the text alone.
pub uninterp spec fn parsed_docs(s: Seq<char>) -> Result<Vec<Node>, String>;

/// Relies on `yaml_rust::Yaml`: renders one parsed node in the document
/// model, one arm per variant — strings, arrays and hashes keep their
/// contents (hash entries in document order), an absent value maps to
/// `Missing`, every other scalar to `Other`.
#[verifier::external_body]
fn node_of_yaml(y: &yaml_rust::Yaml) -> Node {
    match y {
        yaml_rust::Yaml::String(s) => Node::Str(s.clone()),
        yaml_rust::Yaml::Array(items) => Node::Array(items.iter().map(node_of_yaml).collect()),
        yaml_rust::Yaml::Hash(h) => Node::Hash(
            h.iter().map(|(k, v)| (node_of_yaml(k), node_of_yaml(v))).collect(),
        ),
        yaml_rust::Yaml::BadValue => Node::Missing,
        _ => Node::Other,
    }
}

/// Relies on `yaml_rust::YamlLoader::load_from_str`: parses the text into
/// its documents, rendered in the document model; a malformed text yields
/// the scan error's description.
#[verifier::external_body]
fn load_docs(contents: &str) -> (r: Result<Vec<Node>, String>)
    ensures
        r == parsed_docs(contents@),
{
    match yaml_rust::YamlLoader::load_from_str(contents) {
        Ok(docs) => Ok(docs.iter().map(node_of_yaml).collect()),
        Err(e) => Err(format!("{}", std::error::Error::description(&e))),
    }
}

/// What a configuration text means: the validated configuration of its
/// first parsed document, or the exact error message.
pub open spec fn spec_config_of_text(s: Seq<char>) -> Result<ConfigSpec, Seq<char>> {
    match parsed_docs(s) {
        Ok(docs) => spec_parse_docs(docs@),
        Err(m) => Err(m@),
    }
}

/// Parses and validates a configuration text: the host registry and build
/// command list of its first document, or the first validation error.
pub fn parse_config(contents: &str) -> (r: Result<Config, ConfigError>)
    ensures
        config_result_view(r) == spec_config_of_text(contents@),
        r matches Ok(c) ==> crate::engine::distinct_host_names(c@.hosts),
{
    match load_docs(contents) {
        Ok(docs) => parse_config_docs(&docs),
        Err(m) => Err(ConfigError::new(m)),
    }
}

/// Reads the configuration from the text of `bran.yml`: as
/// [`parse_config`], with every failure wrapped in the file-level message.
pub fn read(contents: &str) -> (r: Result<Config, ConfigError>)
    ensures
        match (r, spec_config_of_text(contents@)) {
            (Ok(c), Ok(cs)) => c@ == cs,
            (Err(e), Err(m)) => e@ == "Failed to read bran.yml: "@ + m,
            _ => false,
        },
        r matches Ok(c) ==> crate::engine::distinct_host_names(c@.hosts),
{
    match parse_config(contents) {
        Ok(c) => Ok(c),
        Err(e) => {
            let mut m = String::from_str("Failed to read bran.yml: ");
            m.append(e.message().as_str());
            Err(ConfigError::new(m))
        },
    }
}

} // verus!

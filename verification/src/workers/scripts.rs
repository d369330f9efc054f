//! The scripts that scripted decision nodes can run.

use vstd::prelude::*;
use vstd::std_specs::convert::FromSpecImpl;
use crate::string_map::map_of;
use crate::string_map::StringMap;
use crate::text::join;
use crate::text::join3;

verus! {

/// The schema of the scripted decision node, as the platform describes it.
#[derive(Debug, PartialEq, Eq)]
pub struct ScriptListRoot {
    pub type_field: String,
    pub properties: Properties,
    pub required: Vec<String>,
}

#[derive(Debug, PartialEq, Eq)]
pub struct Properties {
    pub outputs: Outputs,
    pub outcomes: Outcomes,
    pub script: Script,
    pub inputs: Inputs,
}

#[derive(Debug, PartialEq, Eq)]
pub struct Outputs {
    pub title: String,
    pub description: String,
    pub property_order: i64,
    pub items: Items,
    pub type_field: String,
    pub example_value: String,
    pub default: Vec<String>,
}

#[derive(Debug, PartialEq, Eq)]
pub struct Items {
    pub type_field: String,
}

#[derive(Debug, PartialEq, Eq)]
pub struct Outcomes {
    pub title: String,
    pub description: String,
    pub property_order: i64,
    pub items: Items,
    pub type_field: String,
    pub example_value: String,
    pub default: Vec<String>,
}

/// The script property: the ids of the scripts in `enum_field`, their names
/// in `enum_names` and their titles in `options.enum_titles`, position by
/// position.
#[derive(Clone, Debug, PartialEq, Eq)]
pub struct Script {
    pub title: String,
    pub description: String,
    pub property_order: i64,
    pub enum_field: Vec<String>,
    pub options: Options,
    pub enum_names: Vec<String>,
    pub type_field: String,
    pub example_value: String,
    pub default: String,
}

#[derive(Clone, Debug, PartialEq, Eq)]
pub struct Options {
    pub enum_titles: Vec<String>,
}

#[derive(Debug, PartialEq, Eq)]
pub struct Inputs {
    pub title: String,
    pub description: String,
    pub property_order: i64,
    pub items: Items,
    pub type_field: String,
    pub example_value: String,
    pub default: Vec<String>,
}

/// One script: its name, its id and its title.
#[derive(Debug, PartialEq, Eq)]
pub struct ScriptConfig {
    name: String,
    id: String,
    title: String,
}

impl Clone for ScriptConfig {
    fn clone(&self) -> (copy: ScriptConfig)
        ensures
            copy == *self,
    {
        ScriptConfig { name: self.name.clone(), id: self.id.clone(), title: self.title.clone() }
    }
}

impl ScriptConfig {
    pub closed spec fn spec_name(&self) -> Seq<char> {
        self.name@
    }

    pub closed spec fn spec_id(&self) -> Seq<char> {
        self.id@
    }

    pub closed spec fn spec_title(&self) -> Seq<char> {
        self.title@
    }

    /// The script's name.
    pub fn name(&self) -> (name: &String)
        ensures
            name@ == self.spec_name(),
    {
        &self.name
    }

    /// The script's id.
    pub fn id(&self) -> (id: &String)
        ensures
            id@ == self.spec_id(),
    {
        &self.id
    }

    /// The script's title.
    pub fn title(&self) -> (title: &String)
        ensures
            title@ == self.spec_title(),
    {
        &self.title
    }
}

/// The script with the given name, title and id.
pub closed spec fn script_of(name: String, title: String, id: String) -> ScriptConfig {
    ScriptConfig { name, title, id }
}

impl From<(String, String, String)> for ScriptConfig {
    /// A script from its name, its title and its id, in that order.
    fn from(parts: (String, String, String)) -> (config: ScriptConfig) {
        ScriptConfig { name: parts.0, title: parts.1, id: parts.2 }
    }
}

impl FromSpecImpl<(String, String, String)> for ScriptConfig {
    open spec fn obeys_from_spec() -> bool {
        true
    }

    open spec fn from_spec(parts: (String, String, String)) -> ScriptConfig {
        script_of(parts.0, parts.1, parts.2)
    }
}

/// A script has the name, the title and the id it was made of.
pub proof fn lemma_script_of(name: String, title: String, id: String)
    ensures
        script_of(name, title, id).spec_name() == name@,
        script_of(name, title, id).spec_title() == title@,
        script_of(name, title, id).spec_id() == id@,
{
}

/// A script with what the platform holds of it.
#[derive(Debug, PartialEq, Eq)]
pub struct RichScript {
    name: String,
    id: String,
    title: String,
    script: Script,
}

impl RichScript {
    pub closed spec fn spec_name(&self) -> Seq<char> {
        self.name@
    }

    pub closed spec fn spec_id(&self) -> Seq<char> {
        self.id@
    }

    pub closed spec fn spec_title(&self) -> Seq<char> {
        self.title@
    }

    pub closed spec fn spec_script(&self) -> Script {
        self.script
    }

    /// The script `config` with its details `script`.
    pub fn new(config: &ScriptConfig, script: Script) -> (rich: RichScript)
        ensures
            rich.spec_name() == config.spec_name(),
            rich.spec_id() == config.spec_id(),
            rich.spec_title() == config.spec_title(),
            rich.spec_script() == script,
    {
        RichScript {
            name: config.name.clone(),
            id: config.id.clone(),
            title: config.title.clone(),
            script,
        }
    }

    /// The script's name.
    pub fn name(&self) -> (name: &String)
        ensures
            name@ == self.spec_name(),
    {
        &self.name
    }

    /// The script's id.
    pub fn id(&self) -> (id: &String)
        ensures
            id@ == self.spec_id(),
    {
        &self.id
    }

    /// The script's title.
    pub fn title(&self) -> (title: &String)
        ensures
            title@ == self.spec_title(),
    {
        &self.title
    }

    /// The script's details.
    pub fn script(&self) -> (script: &Script)
        ensures
            *script == self.spec_script(),
    {
        &self.script
    }
}

/// The smallest of three lengths.
pub open spec fn shortest(a: int, b: int, c: int) -> int {
    if a <= b && a <= c {
        a
    } else if b <= c {
        b
    } else {
        c
    }
}

/// The scripts that three lists of names, titles and ids describe position
/// by position, each under its name; what one list has beyond the shortest
/// is left out.
pub open spec fn listed_scripts(names: Seq<String>, titles: Seq<String>, ids: Seq<String>) -> Seq<
    (String, ScriptConfig),
> {
    Seq::new(
        shortest(names.len() as int, titles.len() as int, ids.len() as int) as nat,
        |i: int| (names[i], script_of(names[i], titles[i], ids[i])),
    )
}

/// The scripts of a schema by name. Of two scripts with the same name the
/// later one counts.
pub fn script_configs(root: &ScriptListRoot) -> (scripts: StringMap<ScriptConfig>)
    ensures
        scripts@ == map_of(
            listed_scripts(
                root.properties.script.enum_names@,
                root.properties.script.options.enum_titles@,
                root.properties.script.enum_field@,
            ),
        ),
{
    let names = &root.properties.script.enum_names;
    let titles = &root.properties.script.options.enum_titles;
    let ids = &root.properties.script.enum_field;
    let mut n = names.len();
    if titles.len() < n {
        n = titles.len();
    }
    if ids.len() < n {
        n = ids.len();
    }
    let ghost all = listed_scripts(names@, titles@, ids@);
    let mut scripts: StringMap<ScriptConfig> = StringMap::new();
    let mut i: usize = 0;
    while i < n
        invariant
            i <= n,
            n == all.len(),
            n <= names.len() && n <= titles.len() && n <= ids.len(),
            all == listed_scripts(names@, titles@, ids@),
            scripts@ == map_of(all.take(i as int)),
        decreases n - i,
    {
        let config = ScriptConfig::from((names[i].clone(), titles[i].clone(), ids[i].clone()));
        scripts.insert(names[i].clone(), config);
        proof {
            assert(all.take(i + 1).drop_last() =~= all.take(i as int));
            assert(all.take(i + 1).last() == all[i as int]);
        }
        i += 1;
    }
    assert(all.take(n as int) =~= all);
    scripts
}

/// Where the platform at `dom` describes the scripted decision node.
pub fn script_list_url(dom: &str) -> (url: String)
    ensures
        url@ == dom@
            + "/am/json/realms/root/realms/alpha/realm-config/authentication/authenticationtrees/nodes/ScriptedDecisionNode?_action=schema"@,
{
    join(
        dom,
        "/am/json/realms/root/realms/alpha/realm-config/authentication/authenticationtrees/nodes/ScriptedDecisionNode?_action=schema",
    )
}

/// Where the platform at `dom` holds the script `id`.
pub fn script_url(dom: &str, id: &str) -> (url: String)
    ensures
        url@ == dom@ + "/am/json/alpha/scripts/"@ + id@,
{
    join3(dom, "/am/json/alpha/scripts/", id)
}

} // verus!

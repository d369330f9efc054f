use show_me::workers::scripts::script_configs;
use show_me::workers::scripts::script_list_url;
use show_me::workers::scripts::script_url;
use show_me::workers::scripts::Inputs;
use show_me::workers::scripts::Items;
use show_me::workers::scripts::Options;
use show_me::workers::scripts::Outcomes;
use show_me::workers::scripts::Outputs;
use show_me::workers::scripts::Properties;
use show_me::workers::scripts::RichScript;
use show_me::workers::scripts::Script;
use show_me::workers::scripts::ScriptConfig;
use show_me::workers::scripts::ScriptListRoot;

fn names(items: &[&str]) -> Vec<String> {
    items.iter().map(|s| s.to_string()).collect()
}

fn items() -> Items {
    Items { type_field: "string".to_string() }
}

fn script(ids: &[&str], titles: &[&str], script_names: &[&str]) -> Script {
    Script {
        title: "Script".to_string(),
        description: "".to_string(),
        property_order: 100,
        enum_field: names(ids),
        options: Options { enum_titles: names(titles) },
        enum_names: names(script_names),
        type_field: "string".to_string(),
        example_value: "".to_string(),
        default: "[Empty]".to_string(),
    }
}

fn root(ids: &[&str], titles: &[&str], script_names: &[&str]) -> ScriptListRoot {
    ScriptListRoot {
        type_field: "object".to_string(),
        properties: Properties {
            outputs: Outputs {
                title: "o".to_string(),
                description: "".to_string(),
                property_order: 1,
                items: items(),
                type_field: "array".to_string(),
                example_value: "".to_string(),
                default: vec![],
            },
            outcomes: Outcomes {
                title: "o".to_string(),
                description: "".to_string(),
                property_order: 2,
                items: items(),
                type_field: "array".to_string(),
                example_value: "".to_string(),
                default: vec![],
            },
            script: script(ids, titles, script_names),
            inputs: Inputs {
                title: "i".to_string(),
                description: "".to_string(),
                property_order: 3,
                items: items(),
                type_field: "array".to_string(),
                example_value: "".to_string(),
                default: vec![],
            },
        },
        required: names(&["script"]),
    }
}

#[test]
fn a_script_config_is_made_of_name_title_and_id() {
    let config = ScriptConfig::from(("n".to_string(), "t".to_string(), "i".to_string()));
    assert_eq!(config.name(), "n");
    assert_eq!(config.title(), "t");
    assert_eq!(config.id(), "i");
    assert_eq!(config.clone(), config);
}

#[test]
fn scripts_are_listed_by_name_position_by_position() {
    let catalog = script_configs(&root(&["id1", "id2"], &["T1", "T2"], &["one", "two"]));
    assert_eq!(catalog.len(), 2);
    assert_eq!(catalog.key_at(0), "one");
    assert_eq!(catalog.key_at(1), "two");
    assert_eq!(
        catalog.get("one"),
        Some(&ScriptConfig::from(("one".to_string(), "T1".to_string(), "id1".to_string())))
    );
    assert_eq!(
        catalog.get("two"),
        Some(&ScriptConfig::from(("two".to_string(), "T2".to_string(), "id2".to_string())))
    );
    assert_eq!(catalog.get("id1"), None);
}

#[test]
fn the_shortest_list_bounds_the_scripts() {
    let catalog = script_configs(&root(&["id1", "id2", "id3"], &["T1"], &["one", "two"]));
    assert_eq!(catalog.len(), 1);
    assert_eq!(catalog.get("one").unwrap().id(), "id1");
    assert_eq!(script_configs(&root(&[], &["T1"], &["one"])).len(), 0);
}

#[test]
fn of_two_scripts_with_one_name_the_later_counts() {
    let catalog =
        script_configs(&root(&["id1", "id2", "id3"], &["T1", "T2", "T3"], &["same", "x", "same"]));
    assert_eq!(catalog.len(), 2);
    assert_eq!(catalog.key_at(0), "same");
    assert_eq!(catalog.key_at(1), "x");
    assert_eq!(
        catalog.get("same"),
        Some(&ScriptConfig::from(("same".to_string(), "T3".to_string(), "id3".to_string())))
    );
}

#[test]
fn a_rich_script_is_a_script_with_its_details() {
    let config = ScriptConfig::from(("n".to_string(), "t".to_string(), "i".to_string()));
    let rich = RichScript::new(&config, script(&["a"], &["b"], &["c"]));
    assert_eq!(rich.name(), "n");
    assert_eq!(rich.title(), "t");
    assert_eq!(rich.id(), "i");
    assert_eq!(rich.script(), &script(&["a"], &["b"], &["c"]));
}

#[test]
fn scripts_have_their_addresses() {
    assert_eq!(
        script_list_url("https://idp.example"),
        "https://idp.example/am/json/realms/root/realms/alpha/realm-config/authentication/authenticationtrees/nodes/ScriptedDecisionNode?_action=schema"
    );
    assert_eq!(
        script_url("https://idp.example", "abc-1"),
        "https://idp.example/am/json/alpha/scripts/abc-1"
    );
}

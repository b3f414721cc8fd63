use tiger_lib::game::Game;
use tiger_lib::item::Item;
use tiger_lib::lsp_tables::{
    all_builtin_entries, block_schema, effect_to_schema, extract_block_fields, trigger_to_hint, Effect, LspEntryKind,
    SchemaField, Trigger,
};
use tiger_lib::scopes::{Scopes, COUNTRY, STATE};

fn one(bit: u32) -> Scopes {
    Scopes { bits: 1u128 << bit }
}

fn words(ws: &[&str]) -> Vec<String> {
    ws.iter().map(|w| w.to_string()).collect()
}

fn field(f: &SchemaField) -> (&str, bool, &str) {
    (f.name.as_str(), f.required, f.type_hint.as_str())
}

#[test]
fn simple_trigger_hints() {
    let g = Game::Vic3;
    assert_eq!(trigger_to_hint(g, &Trigger::Boolean), "yes/no");
    assert_eq!(trigger_to_hint(g, &Trigger::CompareValue), "value");
    assert_eq!(trigger_to_hint(g, &Trigger::SetValue), "value");
    assert_eq!(trigger_to_hint(g, &Trigger::CompareDate), "date");
    assert_eq!(trigger_to_hint(g, &Trigger::Item(Item::LawType)), "item:LawType");
    assert_eq!(trigger_to_hint(g, &Trigger::ItemOrCompareValue(Item::Country)), "item:Country|value");
    assert_eq!(trigger_to_hint(g, &Trigger::Block(vec![])), "block");
    assert_eq!(trigger_to_hint(g, &Trigger::BlockOrCompareValue(vec![])), "block|value");
    assert_eq!(trigger_to_hint(g, &Trigger::Identifier("foo".to_string())), "identifier:foo");
    assert_eq!(
        trigger_to_hint(g, &Trigger::IdentifierOrBlock("bar".to_string(), vec![])),
        "identifier:bar|block"
    );
    assert_eq!(trigger_to_hint(g, &Trigger::Flag), "flag");
    assert_eq!(trigger_to_hint(g, &Trigger::FlagOrBlock(vec![])), "flag|block");
    assert_eq!(trigger_to_hint(g, &Trigger::Removed("1.5".to_string(), "gone".to_string())), "removed");
    assert_eq!(trigger_to_hint(g, &Trigger::Control), "block");
    assert_eq!(trigger_to_hint(g, &Trigger::UncheckedValue), "any");
    assert_eq!(trigger_to_hint(g, &Trigger::Special), "any");
}

#[test]
fn scope_trigger_hints() {
    let g = Game::Vic3;
    let country = one(COUNTRY);
    let both = Scopes { bits: country.bits | one(STATE).bits };
    assert_eq!(trigger_to_hint(g, &Trigger::Scope(country)), "scope:Scopes(Country)");
    assert_eq!(trigger_to_hint(g, &Trigger::ScopeOkThis(both)), "scope:Scopes(Country | State)");
    assert_eq!(trigger_to_hint(g, &Trigger::ScopeOrItem(country, Item::Country)), "scope:Scopes(Country)|item:Country");
    assert_eq!(trigger_to_hint(g, &Trigger::ScopeOrBlock(country, vec![])), "scope:Scopes(Country)|block");
    assert_eq!(trigger_to_hint(g, &Trigger::ScopeList(country)), "list(scope:Scopes(Country))");
    assert_eq!(trigger_to_hint(Game::Hoi4, &Trigger::Iterator(one(STATE))), "scope:Scopes(State)");
    assert_eq!(trigger_to_hint(g, &Trigger::Scope(Scopes { bits: 0 })), "scope:Scopes(0x0)");
}

#[test]
fn choice_hints_are_cut_after_37_bytes() {
    let g = Game::Vic3;
    assert_eq!(trigger_to_hint(g, &Trigger::Choice(words(&["a", "b", "c"]))), "choice:a|b|c");
    assert_eq!(trigger_to_hint(g, &Trigger::CompareChoiceOrNumber(words(&["x"]))), "choice:x|value");
    let forty = words(&["123456789", "123456789", "123456789", "1234567890"]);
    assert_eq!(
        trigger_to_hint(g, &Trigger::CompareChoice(forty)),
        "choice:123456789|123456789|123456789|1234567890"
    );
    let long = words(&["abcdefghij"; 5]);
    assert_eq!(
        trigger_to_hint(g, &Trigger::Choice(long.clone())),
        "choice(abcdefghij|abcdefghij|abcdefghij|abcd..)"
    );
    assert_eq!(
        trigger_to_hint(g, &Trigger::CompareChoiceOrNumber(long)),
        "choice(abcdefghij|abcdefghij|abcdefghij|abcd..)|value"
    );
    let accents = format!("a{}", "é".repeat(21));
    let cut = format!("choice(a{}..)", "é".repeat(18));
    assert_eq!(trigger_to_hint(g, &Trigger::Choice(vec![accents])), cut);
    let twenty = "é".repeat(20);
    assert_eq!(trigger_to_hint(g, &Trigger::Choice(vec![twenty.clone()])), format!("choice:{twenty}"));
}

#[test]
fn block_fields_strip_prefixes() {
    let fields = vec![
        ("?days".to_string(), Trigger::CompareValue),
        ("+target".to_string(), Trigger::Scope(one(COUNTRY))),
        ("who".to_string(), Trigger::Boolean),
    ];
    let res = extract_block_fields(Game::Vic3, &fields);
    let got: Vec<(&str, bool, &str)> = res.iter().map(field).collect();
    assert_eq!(
        got,
        vec![("days", false, "value"), ("target", true, "scope:Scopes(Country)"), ("who", true, "yes/no")]
    );
}

#[test]
fn effect_schemas() {
    let g = Game::Vic3;
    let t = effect_to_schema(g, &Effect::Timespan).unwrap();
    let got: Vec<(&str, bool, &str)> = t.iter().map(field).collect();
    assert_eq!(
        got,
        vec![("days", false, "value"), ("weeks", false, "value"), ("months", false, "value"), ("years", false, "value")]
    );
    assert!(effect_to_schema(g, &Effect::Other).is_none());
    let tv = effect_to_schema(g, &Effect::TargetValue("target".to_string(), one(COUNTRY), "value".to_string())).unwrap();
    let got: Vec<(&str, bool, &str)> = tv.iter().map(field).collect();
    assert_eq!(got, vec![("target", true, "scope:Scopes(Country)"), ("value", true, "value")]);
    let it = effect_to_schema(
        Game::Hoi4,
        &Effect::ItemTarget("type".to_string(), Item::Country, "who".to_string(), one(STATE)),
    )
    .unwrap();
    let got: Vec<(&str, bool, &str)> = it.iter().map(field).collect();
    assert_eq!(got, vec![("type", true, "item:Country"), ("who", true, "scope:Scopes(State)")]);
    let iv = effect_to_schema(g, &Effect::ItemValue("law".to_string(), Item::LawType)).unwrap();
    assert_eq!(iv.len(), 1);
    assert_eq!(field(&iv[0]), ("law", true, "item:LawType"));
    let tg = effect_to_schema(g, &Effect::Target("target".to_string(), one(COUNTRY))).unwrap();
    assert_eq!(field(&tg[0]), ("target", true, "scope:Scopes(Country)"));
}

#[test]
fn block_schema_asks_triggers_then_effects() {
    let g = Game::Vic3;
    let triggers = vec![
        ("has_law".to_string(), Trigger::Item(Item::LawType)),
        ("any_x".to_string(), Trigger::Block(vec![("?count".to_string(), Trigger::CompareValue)])),
        ("both".to_string(), Trigger::Boolean),
    ];
    let effects = vec![
        ("add_law".to_string(), Effect::ItemValue("law".to_string(), Item::LawType)),
        ("set_x".to_string(), Effect::Other),
        ("both".to_string(), Effect::Timespan),
    ];
    let any = block_schema(g, &triggers, &effects, "ANY_X").unwrap();
    assert_eq!(any.len(), 1);
    assert_eq!(field(&any[0]), ("count", false, "value"));
    assert!(block_schema(g, &triggers, &effects, "has_law").is_none());
    let add = block_schema(g, &triggers, &effects, "Add_Law").unwrap();
    assert_eq!(field(&add[0]), ("law", true, "item:LawType"));
    assert!(block_schema(g, &triggers, &effects, "set_x").is_none());
    assert!(block_schema(g, &triggers, &effects, "unknown").is_none());
    assert_eq!(block_schema(g, &triggers, &effects, "both").unwrap().len(), 4);
}

#[test]
fn builtin_entries_in_table_order() {
    let entries = all_builtin_entries(&vec!["has_x", "is_y"], &vec!["add_z"], &vec!["state"]);
    let got: Vec<(&str, LspEntryKind)> = entries.iter().map(|e| (e.name.as_str(), e.kind)).collect();
    assert_eq!(
        got,
        vec![
            ("has_x", LspEntryKind::Trigger),
            ("is_y", LspEntryKind::Trigger),
            ("add_z", LspEntryKind::Effect),
            ("state", LspEntryKind::Iterator),
        ]
    );
    assert!(all_builtin_entries(&vec![], &vec![], &vec![]).is_empty());
}

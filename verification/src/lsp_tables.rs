//! Tables for editor tooling: the names of all built-in triggers, effects and
//! iterators of a game, and the fields of triggers and effects that take a
//! block argument (for signature help).

use vstd::prelude::*;

use crate::game::Game;
use crate::hoi4::tables::iterators::strs_view;
use crate::item::{item_name, spec_item_name, Item};
use crate::scopes::{scopes_debug, scopes_named, spec_scopes_debug, Scopes};
use crate::text::{
    ascii_lowercase, chars_eq, find_boundary, first_index_of, from_chars, join_seq, lower_seq, push_chars, push_joined, push_str,
    take_bytes, to_chars, utf8_len, utf8_len_exceeds,
};

verus! {

/// One field inside a block-style trigger or effect.
#[derive(Debug)]
pub struct SchemaField {
    /// Field name as it appears in script (no leading `?` or `+`).
    pub name: String,
    /// `false` when the original name had a `?` prefix (optional field).
    pub required: bool,
    /// Human-readable type hint, e.g. "value", "bool", "scope:Character".
    pub type_hint: String,
}

/// The plain-value form of a [`SchemaField`].
pub struct SchemaFieldV {
    pub name: Seq<char>,
    pub required: bool,
    pub type_hint: Seq<char>,
}

impl View for SchemaField {
    type V = SchemaFieldV;

    open spec fn view(&self) -> SchemaFieldV {
        SchemaFieldV { name: self.name@, required: self.required, type_hint: self.type_hint@ }
    }
}

pub open spec fn fields_view(s: Seq<SchemaField>) -> Seq<SchemaFieldV> {
    s.map_values(|f: SchemaField| f@)
}

/// How a built-in trigger validates its right-hand side.
#[derive(Debug)]
pub enum Trigger {
    /// `yes` or `no`.
    Boolean,
    /// A number compared to the value.
    CompareValue,
    /// Like `CompareValue`, but `=` is warned about.
    CompareValueWarnEq,
    /// A number that is set rather than compared.
    SetValue,
    /// A date compared to the value.
    CompareDate,
    /// The name of an item, or a number compared to the value.
    ItemOrCompareValue(Item),
    /// A target of the given scope types.
    Scope(Scopes),
    /// Like `Scope`, but `this` is accepted.
    ScopeOkThis(Scopes),
    /// The name of an item.
    Item(Item),
    /// A target of the given scope types, or the name of an item.
    ScopeOrItem(Scopes, Item),
    /// One of the given words.
    Choice(Vec<String>),
    /// One of the given words, compared.
    CompareChoice(Vec<String>),
    /// One of the given words, or a number.
    CompareChoiceOrNumber(Vec<String>),
    /// A block with the given fields.
    Block(Vec<(String, Trigger)>),
    /// A target of the given scope types, or a block with the given fields.
    ScopeOrBlock(Scopes, Vec<(String, Trigger)>),
    /// The name of an item, or a block with the given fields.
    ItemOrBlock(Item, Vec<(String, Trigger)>),
    /// The given identifier, or a block with the given fields.
    IdentifierOrBlock(String, Vec<(String, Trigger)>),
    /// A block with the given fields, or a number.
    BlockOrCompareValue(Vec<(String, Trigger)>),
    /// A list of targets of the given scope types.
    ScopeList(Scopes),
    /// A target of the given scope types, compared.
    ScopeCompare(Scopes),
    /// Compared to a target of the given scope types.
    CompareToScope(Scopes),
    /// An iterator over targets of the given scope types.
    Iterator(Scopes),
    /// The given kind of identifier.
    Identifier(String),
    /// A flag.
    Flag,
    /// A flag, or a block with the given fields.
    FlagOrBlock(Vec<(String, Trigger)>),
    /// A trigger that the game removed in the given version, with an explanation.
    Removed(String, String),
    /// A control trigger (`AND`, `OR`, ...).
    Control,
    /// A trigger with its own validation.
    Special,
    /// A value that is not checked.
    UncheckedValue,
    /// A trigger whose validation is still to be written.
    UncheckedTodo,
}

/// How a built-in effect validates its right-hand side, as far as the
/// signature help needs it.
#[derive(Debug)]
pub enum Effect {
    /// A block with one field: a target of the given scope types.
    Target(String, Scopes),
    /// A block with a target field and a value field.
    TargetValue(String, Scopes, String),
    /// A block with an item field and a target field.
    ItemTarget(String, Item, String, Scopes),
    /// A block with an item field (and a value).
    ItemValue(String, Item),
    /// A block with optional `days`, `weeks`, `months` and `years`.
    Timespan,
    /// Any other effect: a scalar, a block validated by code, or a control
    /// effect.
    Other,
}

pub open spec fn strings_view(v: Seq<String>) -> Seq<Seq<char>> {
    v.map_values(|s: String| s@)
}

/// Whether a list of choices, joined by `|`, can be cut after its first 37
/// bytes when it is longer than 40: the cut must fall between characters.
pub open spec fn choices_ok(choices: Seq<Seq<char>>) -> bool {
    let joined = join_seq(choices, "|"@);
    utf8_len(joined) > 40 ==> find_boundary(joined, 37, 0) is Some
}

/// The hint for a choice of words: `choice:a|b|c`, or the first 37 bytes of
/// the joined words in `choice(..)` when they are longer than 40 bytes;
/// `suffix` follows.
pub open spec fn choice_hint(choices: Seq<Seq<char>>, suffix: Seq<char>) -> Seq<char> {
    let joined = join_seq(choices, "|"@);
    if utf8_len(joined) > 40 {
        "choice("@ + joined.take(find_boundary(joined, 37, 0)->0 as int) + "..)"@ + suffix
    } else {
        "choice:"@ + joined + suffix
    }
}

pub open spec fn scope_hint(game: Game, s: Scopes) -> Seq<char> {
    "scope:"@ + spec_scopes_debug(game, s)
}

pub open spec fn item_hint(item: Item) -> Seq<char> {
    "item:"@ + spec_item_name(item)
}

/// Whether the hint of `t` can be made: its scope sets have names and its
/// choices can be cut.
pub open spec fn hint_ok(game: Game, t: Trigger) -> bool {
    match t {
        Trigger::Scope(s) | Trigger::ScopeOkThis(s) | Trigger::ScopeOrItem(s, _) | Trigger::ScopeOrBlock(s, _)
        | Trigger::ScopeList(s) | Trigger::ScopeCompare(s) | Trigger::CompareToScope(s) | Trigger::Iterator(s) =>
            scopes_named(game, s),
        Trigger::Choice(c) | Trigger::CompareChoice(c) | Trigger::CompareChoiceOrNumber(c) =>
            choices_ok(strings_view(c@)),
        _ => true,
    }
}

/// A short human-readable hint of what a trigger takes.
pub open spec fn spec_trigger_hint(game: Game, t: Trigger) -> Seq<char> {
    match t {
        Trigger::Boolean => "yes/no"@,
        Trigger::CompareValue | Trigger::CompareValueWarnEq | Trigger::SetValue => "value"@,
        Trigger::CompareDate => "date"@,
        Trigger::ItemOrCompareValue(item) => item_hint(item) + "|value"@,
        Trigger::Scope(s) | Trigger::ScopeOkThis(s) => scope_hint(game, s),
        Trigger::Item(item) => item_hint(item),
        Trigger::ScopeOrItem(s, item) => scope_hint(game, s) + "|"@ + item_hint(item),
        Trigger::Choice(c) | Trigger::CompareChoice(c) => choice_hint(strings_view(c@), Seq::empty()),
        Trigger::CompareChoiceOrNumber(c) => choice_hint(strings_view(c@), "|value"@),
        Trigger::Block(_) => "block"@,
        Trigger::ScopeOrBlock(s, _) => scope_hint(game, s) + "|block"@,
        Trigger::ItemOrBlock(item, _) => item_hint(item) + "|block"@,
        Trigger::IdentifierOrBlock(id, _) => "identifier:"@ + id@ + "|block"@,
        Trigger::BlockOrCompareValue(_) => "block|value"@,
        Trigger::ScopeList(s) => "list("@ + scope_hint(game, s) + ")"@,
        Trigger::ScopeCompare(s) | Trigger::CompareToScope(s) | Trigger::Iterator(s) => scope_hint(game, s),
        Trigger::Identifier(id) => "identifier:"@ + id@,
        Trigger::Flag => "flag"@,
        Trigger::FlagOrBlock(_) => "flag|block"@,
        Trigger::Removed(_, _) => "removed"@,
        Trigger::Control => "block"@,
        Trigger::Special | Trigger::UncheckedValue | Trigger::UncheckedTodo => "any"@,
    }
}

fn push_scope_hint(v: &mut Vec<char>, game: Game, s: Scopes)
    requires
        scopes_named(game, s),
    ensures
        final(v)@ == old(v)@ + scope_hint(game, s),
{
    push_str(v, "scope:");
    let d = scopes_debug(game, s);
    push_chars(v, &d);
    assert(final(v)@ =~= old(v)@ + scope_hint(game, s));
}

fn push_item_hint(v: &mut Vec<char>, item: Item)
    ensures
        final(v)@ == old(v)@ + item_hint(item),
{
    push_str(v, "item:");
    push_str(v, item_name(item));
    assert(final(v)@ =~= old(v)@ + item_hint(item));
}

/// The words joined by `|`.
fn join_choices(choices: &Vec<String>) -> (res: Vec<char>)
    ensures
        res@ == join_seq(strings_view(choices@), "|"@),
{
    let mut res: Vec<char> = Vec::new();
    let ghost start = res@;
    let mut i: usize = 0;
    while i < choices.len()
        invariant
            i <= choices@.len(),
            start == Seq::<char>::empty(),
            res@ == start + join_seq(strings_view(choices@).take(i as int), "|"@),
        decreases choices.len() - i,
    {
        let ghost parts = strings_view(choices@).take(i as int);
        assert(strings_view(choices@).take(i + 1) == parts.push(choices@[i as int]@));
        push_joined(&mut res, i == 0, "|", choices[i].as_str(), Ghost(start), Ghost(parts));
        i += 1;
    }
    assert(strings_view(choices@).take(choices@.len() as int) == strings_view(choices@));
    assert(res@ =~= join_seq(strings_view(choices@), "|"@));
    res
}

fn push_choice_hint(v: &mut Vec<char>, choices: &Vec<String>, suffix: &str)
    requires
        choices_ok(strings_view(choices@)),
    ensures
        final(v)@ == old(v)@ + choice_hint(strings_view(choices@), suffix@),
{
    let joined = join_choices(choices);
    if utf8_len_exceeds(&joined, 40) {
        let head = take_bytes(&joined, 37);
        push_str(v, "choice(");
        push_chars(v, &head);
        push_str(v, "..)");
    } else {
        push_str(v, "choice:");
        push_chars(v, &joined);
    }
    push_str(v, suffix);
    assert(final(v)@ =~= old(v)@ + choice_hint(strings_view(choices@), suffix@));
}

/// A short human-readable hint of what a trigger takes (see
/// [`spec_trigger_hint`]).
pub fn trigger_to_hint(game: Game, t: &Trigger) -> (res: String)
    requires
        hint_ok(game, *t),
    ensures
        res@ == spec_trigger_hint(game, *t),
{
    let mut v: Vec<char> = Vec::new();
    match t {
        Trigger::Boolean => {
            push_str(&mut v, "yes/no");
        },
        Trigger::CompareValue | Trigger::CompareValueWarnEq | Trigger::SetValue => {
            push_str(&mut v, "value");
        },
        Trigger::CompareDate => {
            push_str(&mut v, "date");
        },
        Trigger::ItemOrCompareValue(item) => {
            push_item_hint(&mut v, *item);
            push_str(&mut v, "|value");
        },
        Trigger::Scope(s) | Trigger::ScopeOkThis(s) => {
            push_scope_hint(&mut v, game, *s);
        },
        Trigger::Item(item) => {
            push_item_hint(&mut v, *item);
        },
        Trigger::ScopeOrItem(s, item) => {
            push_scope_hint(&mut v, game, *s);
            push_str(&mut v, "|");
            push_item_hint(&mut v, *item);
        },
        Trigger::Choice(c) | Trigger::CompareChoice(c) => {
            push_choice_hint(&mut v, c, "");
            proof {
                reveal_strlit("");
            }
        },
        Trigger::CompareChoiceOrNumber(c) => {
            push_choice_hint(&mut v, c, "|value");
        },
        Trigger::Block(_) => {
            push_str(&mut v, "block");
        },
        Trigger::ScopeOrBlock(s, _) => {
            push_scope_hint(&mut v, game, *s);
            push_str(&mut v, "|block");
        },
        Trigger::ItemOrBlock(item, _) => {
            push_item_hint(&mut v, *item);
            push_str(&mut v, "|block");
        },
        Trigger::IdentifierOrBlock(id, _) => {
            push_str(&mut v, "identifier:");
            push_str(&mut v, id.as_str());
            push_str(&mut v, "|block");
        },
        Trigger::BlockOrCompareValue(_) => {
            push_str(&mut v, "block|value");
        },
        Trigger::ScopeList(s) => {
            push_str(&mut v, "list(");
            push_scope_hint(&mut v, game, *s);
            push_str(&mut v, ")");
        },
        Trigger::ScopeCompare(s) | Trigger::CompareToScope(s) | Trigger::Iterator(s) => {
            push_scope_hint(&mut v, game, *s);
        },
        Trigger::Identifier(id) => {
            push_str(&mut v, "identifier:");
            push_str(&mut v, id.as_str());
        },
        Trigger::Flag => {
            push_str(&mut v, "flag");
        },
        Trigger::FlagOrBlock(_) => {
            push_str(&mut v, "flag|block");
        },
        Trigger::Removed(_, _) => {
            push_str(&mut v, "removed");
        },
        Trigger::Control => {
            push_str(&mut v, "block");
        },
        Trigger::Special | Trigger::UncheckedValue | Trigger::UncheckedTodo => {
            push_str(&mut v, "any");
        },
    }
    assert(v@ =~= spec_trigger_hint(game, *t));
    from_chars(&v)
}

/// A field name without its `?` (optional) or `+` (required, repeatable)
/// prefix, and whether the field is required.
pub open spec fn strip_field_name(raw: Seq<char>) -> (Seq<char>, bool) {
    if raw.len() > 0 && raw[0] == '?' {
        (raw.drop_first(), false)
    } else if raw.len() > 0 && raw[0] == '+' {
        (raw.drop_first(), true)
    } else {
        (raw, true)
    }
}

/// The schema field for the block field `raw` of a trigger.
pub open spec fn spec_block_field(game: Game, raw: Seq<char>, t: Trigger) -> SchemaFieldV {
    SchemaFieldV { name: strip_field_name(raw).0, required: strip_field_name(raw).1, type_hint: spec_trigger_hint(game, t) }
}

/// The schema fields of a block-style trigger's fields, in order.
pub open spec fn spec_block_fields(game: Game, fields: Seq<(String, Trigger)>) -> Seq<SchemaFieldV> {
    fields.map_values(|f: (String, Trigger)| spec_block_field(game, f.0@, f.1))
}

/// Whether every field's hint can be made.
pub open spec fn fields_ok(game: Game, fields: Seq<(String, Trigger)>) -> bool {
    forall|k: int| 0 <= k < fields.len() ==> hint_ok(game, #[trigger] fields[k].1)
}

/// The schema fields of a block-style trigger's fields: a `?` prefix marks an
/// optional field, a `+` prefix is dropped.
pub fn extract_block_fields(game: Game, fields: &Vec<(String, Trigger)>) -> (res: Vec<SchemaField>)
    requires
        fields_ok(game, fields@),
    ensures
        fields_view(res@) == spec_block_fields(game, fields@),
{
    let mut res: Vec<SchemaField> = Vec::new();
    let mut i: usize = 0;
    while i < fields.len()
        invariant
            i <= fields@.len(),
            fields_ok(game, fields@),
            fields_view(res@) == spec_block_fields(game, fields@).take(i as int),
        decreases fields.len() - i,
    {
        let raw = to_chars(fields[i].0.as_str());
        let mut name: Vec<char> = Vec::new();
        let mut required = true;
        let mut j: usize = 0;
        if raw.len() > 0 && (raw[0] == '?' || raw[0] == '+') {
            required = raw[0] == '+';
            j = 1;
        }
        let ghost skip = j;
        while j < raw.len()
            invariant
                skip <= j <= raw@.len(),
                name@ == raw@.subrange(skip as int, j as int),
            decreases raw.len() - j,
        {
            name.push(raw[j]);
            j += 1;
        }
        assert(raw@.subrange(1, raw@.len() as int) == raw@.drop_first());
        assert(raw@.subrange(0, raw@.len() as int) == raw@);
        let hint = trigger_to_hint(game, &fields[i].1);
        let f = SchemaField { name: from_chars(&name), required, type_hint: hint };
        assert(f@ == spec_block_field(game, fields@[i as int].0@, fields@[i as int].1));
        let ghost before = res@;
        res.push(f);
        assert(fields_view(res@) =~= fields_view(before).push(f@));
        assert(fields_view(res@) =~= spec_block_fields(game, fields@).take(i + 1));
        i += 1;
    }
    assert(spec_block_fields(game, fields@).take(fields@.len() as int) =~= spec_block_fields(game, fields@));
    res
}

/// Whether the schema of `e` can be made: its scope sets have names.
pub open spec fn effect_ok(game: Game, e: Effect) -> bool {
    match e {
        Effect::Target(_, s) | Effect::TargetValue(_, s, _) | Effect::ItemTarget(_, _, _, s) => scopes_named(game, s),
        _ => true,
    }
}

pub open spec fn required_field(name: Seq<char>, hint: Seq<char>) -> SchemaFieldV {
    SchemaFieldV { name, required: true, type_hint: hint }
}

pub open spec fn optional_value(name: Seq<char>) -> SchemaFieldV {
    SchemaFieldV { name, required: false, type_hint: "value"@ }
}

/// The schema of a block-style effect; `None` for scalar effects, effects
/// whose block is validated by code, and control effects.
pub open spec fn spec_effect_schema(game: Game, e: Effect) -> Option<Seq<SchemaFieldV>> {
    match e {
        Effect::Target(f, s) => Some(seq![required_field(f@, scope_hint(game, s))]),
        Effect::TargetValue(tf, s, vf) => Some(seq![required_field(tf@, scope_hint(game, s)), required_field(vf@, "value"@)]),
        Effect::ItemTarget(f, item, sf, s) => Some(seq![required_field(f@, item_hint(item)), required_field(sf@, scope_hint(game, s))]),
        Effect::ItemValue(f, item) => Some(seq![required_field(f@, item_hint(item))]),
        Effect::Timespan => Some(seq![optional_value("days"@), optional_value("weeks"@), optional_value("months"@), optional_value("years"@)]),
        Effect::Other => None,
    }
}

fn schema_field(name: &str, required: bool, hint: Vec<char>) -> (res: SchemaField)
    ensures
        res@ == (SchemaFieldV { name: name@, required, type_hint: hint@ }),
{
    SchemaField { name: from_chars(&to_chars(name)), required, type_hint: from_chars(&hint) }
}

fn scope_hint_chars(game: Game, s: Scopes) -> (res: Vec<char>)
    requires
        scopes_named(game, s),
    ensures
        res@ == scope_hint(game, s),
{
    let mut v: Vec<char> = Vec::new();
    push_scope_hint(&mut v, game, s);
    assert(v@ =~= scope_hint(game, s));
    v
}

fn item_hint_chars(item: Item) -> (res: Vec<char>)
    ensures
        res@ == item_hint(item),
{
    let mut v: Vec<char> = Vec::new();
    push_item_hint(&mut v, item);
    assert(v@ =~= item_hint(item));
    v
}

/// The schema of a block-style effect (see [`spec_effect_schema`]).
pub fn effect_to_schema(game: Game, e: &Effect) -> (res: Option<Vec<SchemaField>>)
    requires
        effect_ok(game, *e),
    ensures
        match res {
            Some(v) => spec_effect_schema(game, *e) == Some(fields_view(v@)),
            None => spec_effect_schema(game, *e) is None,
        },
{
    let value = to_chars("value");
    let res = match e {
        Effect::Target(f, s) => vec![schema_field(f.as_str(), true, scope_hint_chars(game, *s))],
        Effect::TargetValue(tf, s, vf) => vec![
            schema_field(tf.as_str(), true, scope_hint_chars(game, *s)),
            schema_field(vf.as_str(), true, value),
        ],
        Effect::ItemTarget(f, item, sf, s) => vec![
            schema_field(f.as_str(), true, item_hint_chars(*item)),
            schema_field(sf.as_str(), true, scope_hint_chars(game, *s)),
        ],
        Effect::ItemValue(f, item) => vec![schema_field(f.as_str(), true, item_hint_chars(*item))],
        Effect::Timespan => vec![
            schema_field("days", false, to_chars("value")),
            schema_field("weeks", false, to_chars("value")),
            schema_field("months", false, to_chars("value")),
            schema_field("years", false, to_chars("value")),
        ],
        Effect::Other => return None,
    };
    assert(spec_effect_schema(game, *e) == Some(fields_view(res@)));
    Some(res)
}

pub open spec fn trigger_keys(t: Seq<(String, Trigger)>) -> Seq<Seq<char>> {
    t.map_values(|p: (String, Trigger)| p.0@)
}

pub open spec fn effect_keys(t: Seq<(String, Effect)>) -> Seq<Seq<char>> {
    t.map_values(|p: (String, Effect)| p.0@)
}

/// The schema of the trigger named `name` (in any case) in the table, if it
/// takes a block.
pub open spec fn spec_trigger_schema(game: Game, triggers: Seq<(String, Trigger)>, name: Seq<char>) -> Option<Seq<SchemaFieldV>> {
    let i = first_index_of(trigger_keys(triggers), lower_seq(name));
    if i >= 0 {
        match triggers[i].1 {
            Trigger::Block(fields) => Some(spec_block_fields(game, fields@)),
            _ => None,
        }
    } else {
        None
    }
}

/// The schema of the effect named `name` (in any case) in the table, if it
/// takes a fixed block.
pub open spec fn spec_effect_schema_of(game: Game, effects: Seq<(String, Effect)>, name: Seq<char>) -> Option<Seq<SchemaFieldV>> {
    let i = first_index_of(effect_keys(effects), lower_seq(name));
    if i >= 0 {
        spec_effect_schema(game, effects[i].1)
    } else {
        None
    }
}

/// What the schema lookup of `name` needs of the tables: the trigger or
/// effect that it finds can give its hints.
pub open spec fn schema_ok(game: Game, triggers: Seq<(String, Trigger)>, effects: Seq<(String, Effect)>, name: Seq<char>) -> bool {
    let i = first_index_of(trigger_keys(triggers), lower_seq(name));
    let j = first_index_of(effect_keys(effects), lower_seq(name));
    &&& (i >= 0 ==> match triggers[i].1 {
        Trigger::Block(fields) => fields_ok(game, fields@),
        _ => true,
    })
    &&& (j >= 0 ==> effect_ok(game, effects[j].1))
}

/// The schema of a block-style trigger or effect: the trigger's, if the
/// trigger table has `name` as a block trigger, else the effect's.
pub open spec fn spec_block_schema(game: Game, triggers: Seq<(String, Trigger)>, effects: Seq<(String, Effect)>, name: Seq<char>) -> Option<Seq<SchemaFieldV>> {
    match spec_trigger_schema(game, triggers, name) {
        Some(f) => Some(f),
        None => spec_effect_schema_of(game, effects, name),
    }
}

pub open spec fn opt_fields_view(o: Option<Vec<SchemaField>>) -> Option<Seq<SchemaFieldV>> {
    match o {
        Some(v) => Some(fields_view(v@)),
        None => None,
    }
}

#[verifier::loop_isolation(false)]
fn trigger_schema(game: Game, triggers: &Vec<(String, Trigger)>, lc: &Vec<char>, Ghost(name): Ghost<Seq<char>>) -> (res: Option<Vec<SchemaField>>)
    requires
        lc@ == lower_seq(name),
        ({
            let i = first_index_of(trigger_keys(triggers@), lc@);
            i >= 0 ==> match triggers@[i].1 {
                Trigger::Block(fields) => fields_ok(game, fields@),
                _ => true,
            }
        }),
    ensures
        opt_fields_view(res) == spec_trigger_schema(game, triggers@, name),
{
    let ghost keys = trigger_keys(triggers@);
    let mut i: usize = 0;
    while i < triggers.len()
        invariant
            i <= triggers@.len(),
            keys == trigger_keys(triggers@),
            forall|k: int| 0 <= k < i ==> keys[k] != lc@,
        decreases triggers.len() - i,
    {
        assert(keys[i as int] == triggers@[i as int].0@);
        if chars_eq(&to_chars(triggers[i].0.as_str()), lc) {
            proof {
                crate::text::lemma_first_index_is(keys, lc@, i as int);
            }
            return match &triggers[i].1 {
                Trigger::Block(fields) => Some(extract_block_fields(game, fields)),
                _ => None,
            };
        }
        i += 1;
    }
    proof {
        crate::text::lemma_first_index_is(keys, lc@, -1);
    }
    None
}

#[verifier::loop_isolation(false)]
fn effect_schema(game: Game, effects: &Vec<(String, Effect)>, lc: &Vec<char>, Ghost(name): Ghost<Seq<char>>) -> (res: Option<Vec<SchemaField>>)
    requires
        lc@ == lower_seq(name),
        ({
            let j = first_index_of(effect_keys(effects@), lc@);
            j >= 0 ==> effect_ok(game, effects@[j].1)
        }),
    ensures
        opt_fields_view(res) == spec_effect_schema_of(game, effects@, name),
{
    let ghost keys = effect_keys(effects@);
    let mut i: usize = 0;
    while i < effects.len()
        invariant
            i <= effects@.len(),
            keys == effect_keys(effects@),
            forall|k: int| 0 <= k < i ==> keys[k] != lc@,
        decreases effects.len() - i,
    {
        assert(keys[i as int] == effects@[i as int].0@);
        if chars_eq(&to_chars(effects[i].0.as_str()), lc) {
            proof {
                crate::text::lemma_first_index_is(keys, lc@, i as int);
            }
            return effect_to_schema(game, &effects[i].1);
        }
        i += 1;
    }
    proof {
        crate::text::lemma_first_index_is(keys, lc@, -1);
    }
    None
}

/// The schema of a built-in trigger or effect named `name` (in any case), if
/// it takes a block argument; `None` for scalar ones. The game's trigger
/// table is asked first, then its effect table.
pub fn block_schema(game: Game, triggers: &Vec<(String, Trigger)>, effects: &Vec<(String, Effect)>, name: &str) -> (res: Option<Vec<SchemaField>>)
    requires
        schema_ok(game, triggers@, effects@, name@),
    ensures
        opt_fields_view(res) == spec_block_schema(game, triggers@, effects@, name@),
{
    let lc = ascii_lowercase(name);
    let t = trigger_schema(game, triggers, &lc, Ghost(name@));
    if t.is_some() {
        return t;
    }
    effect_schema(game, effects, &lc, Ghost(name@))
}

/// The kinds of built-in names.
#[derive(Debug, Clone, Copy, PartialEq, Eq, Structural)]
pub enum LspEntryKind {
    Trigger,
    Effect,
    /// Base name — represents every_X, any_X, random_X, ordered_X variants.
    Iterator,
}

/// One built-in name and its kind.
#[derive(Debug)]
pub struct LspEntry {
    pub name: String,
    pub kind: LspEntryKind,
}

/// The plain-value form of an [`LspEntry`].
pub struct LspEntryV {
    pub name: Seq<char>,
    pub kind: LspEntryKind,
}

impl View for LspEntry {
    type V = LspEntryV;

    open spec fn view(&self) -> LspEntryV {
        LspEntryV { name: self.name@, kind: self.kind }
    }
}

pub open spec fn entries_view(s: Seq<LspEntry>) -> Seq<LspEntryV> {
    s.map_values(|e: LspEntry| e@)
}

/// One entry of kind `kind` for each name, in order.
pub open spec fn entries_of(names: Seq<Seq<char>>, kind: LspEntryKind) -> Seq<LspEntryV> {
    names.map_values(|n: Seq<char>| LspEntryV { name: n, kind })
}

fn push_entries(out: &mut Vec<LspEntry>, names: &Vec<&'static str>, kind: LspEntryKind)
    ensures
        entries_view(final(out)@) == entries_view(old(out)@) + entries_of(strs_view(names@), kind),
{
    let ghost start = entries_view(out@);
    let mut i: usize = 0;
    while i < names.len()
        invariant
            i <= names@.len(),
            entries_view(out@) == start + entries_of(strs_view(names@), kind).take(i as int),
        decreases names.len() - i,
    {
        let e = LspEntry { name: from_chars(&to_chars(names[i])), kind };
        assert(e@ == entries_of(strs_view(names@), kind)[i as int]);
        let ghost before = out@;
        out.push(e);
        assert(entries_view(out@) =~= entries_view(before).push(e@));
        assert(entries_view(out@) =~= start + entries_of(strs_view(names@), kind).take(i + 1));
        i += 1;
    }
    assert(entries_of(strs_view(names@), kind).take(names@.len() as int) =~= entries_of(strs_view(names@), kind));
}

/// All built-in names of the game from its tables: first its triggers, then
/// its effects, then the base names of its iterators, each in the order the
/// tables give them.
pub fn all_builtin_entries(
    triggers: &Vec<&'static str>,
    effects: &Vec<&'static str>,
    iterators: &Vec<&'static str>,
) -> (res: Vec<LspEntry>)
    ensures
        entries_view(res@) == entries_of(strs_view(triggers@), LspEntryKind::Trigger)
            + entries_of(strs_view(effects@), LspEntryKind::Effect)
            + entries_of(strs_view(iterators@), LspEntryKind::Iterator),
{
    let mut out: Vec<LspEntry> = Vec::new();
    assert(entries_view(out@) =~= Seq::<LspEntryV>::empty());
    push_entries(&mut out, triggers, LspEntryKind::Trigger);
    push_entries(&mut out, effects, LspEntryKind::Effect);
    push_entries(&mut out, iterators, LspEntryKind::Iterator);
    assert(entries_view(out@) =~= entries_of(strs_view(triggers@), LspEntryKind::Trigger)
        + entries_of(strs_view(effects@), LspEntryKind::Effect)
        + entries_of(strs_view(iterators@), LspEntryKind::Iterator));
    out
}

/// A trigger's block schema comes before an effect's of the same name: the
/// effect table is asked only when the trigger table has no block schema
/// for the name; with neither, there is none.
pub proof fn law_trigger_schema_first(game: Game, triggers: Seq<(String, Trigger)>, effects: Seq<(String, Effect)>, name: Seq<char>)
    ensures
        spec_trigger_schema(game, triggers, name) is Some
            ==> spec_block_schema(game, triggers, effects, name) == spec_trigger_schema(game, triggers, name),
        spec_trigger_schema(game, triggers, name) is None
            ==> spec_block_schema(game, triggers, effects, name) == spec_effect_schema_of(game, effects, name),
{
}

} // verus!

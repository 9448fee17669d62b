//! Links between entities: which link type a pair of entity kinds implies,
//! the reciprocal of a link, where each kind of entity is stored, and the
//! edits and checks made on the `links` section of an entity file.

use vstd::prelude::*;
use crate::identity::EntityPrefix;
use crate::common::opt_view;
use serde_yml::Value;
use crate::yaml::{emit_yaml, entry_of, insert_entry, is_null_value, item_at, keys_of, mapping_of, parse_yaml, sequence_len, sequence_of, text_of, value_of_text, parsed_yaml, yaml_emitted, yaml_entry, yaml_from_option, yaml_inserted, yaml_is_null, yaml_items, yaml_keys, yaml_mapping_of, yaml_sequence, yaml_text};
use crate::helpers::{short_id_form, truncate_id};
use crate::text::{all_capitals, append_text, byte_len, concat_texts, decimal, decimal_text, is_byte_boundary, push_char, chars_eq, chars_of, str_eq, str_starts_with, string_from_prefix, text_starts_with, to_lowercase, lowercase, to_uppercase, uppercase};

verus! {

/// The link type inferred for a link from an entity of kind `s` to one of kind `t`.
pub open spec fn inferred_link_type(s: EntityPrefix, t: EntityPrefix) -> Option<Seq<char>> {
    match (s, t) {
        (EntityPrefix::Req, EntityPrefix::Test) => Some("verified_by"@),
        (EntityPrefix::Req, EntityPrefix::Ctrl) => Some("verified_by"@),
        (EntityPrefix::Req, EntityPrefix::Req) => Some("derives_from"@),
        (EntityPrefix::Req, EntityPrefix::Feat) => Some("allocated_to"@),
        (EntityPrefix::Req, EntityPrefix::Risk) => Some("risks"@),
        (EntityPrefix::Req, EntityPrefix::Cmp) => Some("satisfied_by"@),
        (EntityPrefix::Req, EntityPrefix::Asm) => Some("satisfied_by"@),
        (EntityPrefix::Test, EntityPrefix::Req) => Some("verifies"@),
        (EntityPrefix::Ctrl, EntityPrefix::Req) => Some("verifies"@),
        (EntityPrefix::Test, EntityPrefix::Cmp) => Some("component"@),
        (EntityPrefix::Test, EntityPrefix::Asm) => Some("assembly"@),
        (EntityPrefix::Rslt, EntityPrefix::Cmp) => Some("component"@),
        (EntityPrefix::Rslt, EntityPrefix::Asm) => Some("assembly"@),
        (EntityPrefix::Risk, EntityPrefix::Req) => Some("requirement"@),
        (EntityPrefix::Risk, EntityPrefix::Cmp) => Some("affects"@),
        (EntityPrefix::Risk, EntityPrefix::Asm) => Some("assembly"@),
        (EntityPrefix::Risk, EntityPrefix::Proc) => Some("process"@),
        (EntityPrefix::Risk, EntityPrefix::Feat) => Some("affects"@),
        (EntityPrefix::Risk, EntityPrefix::Test) => Some("verified_by"@),
        (EntityPrefix::Risk, EntityPrefix::Ctrl) => Some("controls"@),
        (EntityPrefix::Feat, EntityPrefix::Risk) => Some("risks"@),
        (EntityPrefix::Cmp, EntityPrefix::Risk) => Some("risks"@),
        (EntityPrefix::Asm, EntityPrefix::Risk) => Some("risks"@),
        (EntityPrefix::Proc, EntityPrefix::Risk) => Some("risks"@),
        (EntityPrefix::Ctrl, EntityPrefix::Risk) => Some("risks"@),
        (EntityPrefix::Work, EntityPrefix::Risk) => Some("risks"@),
        (EntityPrefix::Cmp, EntityPrefix::Req) => Some("requirements"@),
        (EntityPrefix::Asm, EntityPrefix::Req) => Some("requirements"@),
        (EntityPrefix::Cmp, EntityPrefix::Proc) => Some("processes"@),
        (EntityPrefix::Asm, EntityPrefix::Proc) => Some("processes"@),
        (EntityPrefix::Cmp, EntityPrefix::Test) => Some("tests"@),
        (EntityPrefix::Asm, EntityPrefix::Test) => Some("tests"@),
        (EntityPrefix::Proc, EntityPrefix::Req) => Some("requirements"@),
        (EntityPrefix::Proc, EntityPrefix::Cmp) => Some("produces"@),
        (EntityPrefix::Proc, EntityPrefix::Asm) => Some("produces"@),
        (EntityPrefix::Ctrl, EntityPrefix::Cmp) => Some("component"@),
        (EntityPrefix::Ctrl, EntityPrefix::Feat) => Some("feature"@),
        (EntityPrefix::Ctrl, EntityPrefix::Proc) => Some("process"@),
        (EntityPrefix::Work, EntityPrefix::Cmp) => Some("component"@),
        (EntityPrefix::Work, EntityPrefix::Asm) => Some("assembly"@),
        (EntityPrefix::Work, EntityPrefix::Proc) => Some("process"@),
        (EntityPrefix::Work, EntityPrefix::Ctrl) => Some("controls"@),
        (EntityPrefix::Feat, EntityPrefix::Req) => Some("allocated_from"@),
        (EntityPrefix::Rslt, EntityPrefix::Ncr) => Some("ncrs"@),
        (EntityPrefix::Ncr, EntityPrefix::Rslt) => Some("from_result"@),
        (EntityPrefix::Ncr, EntityPrefix::Capa) => Some("capa"@),
        (EntityPrefix::Ncr, EntityPrefix::Cmp) => Some("component"@),
        (EntityPrefix::Ncr, EntityPrefix::Sup) => Some("supplier"@),
        (EntityPrefix::Ncr, EntityPrefix::Proc) => Some("process"@),
        (EntityPrefix::Capa, EntityPrefix::Ncr) => Some("ncrs"@),
        (EntityPrefix::Capa, EntityPrefix::Proc) => Some("processes_modified"@),
        (EntityPrefix::Capa, EntityPrefix::Ctrl) => Some("controls_added"@),
        (EntityPrefix::Capa, EntityPrefix::Cmp) => Some("component"@),
        (EntityPrefix::Capa, EntityPrefix::Sup) => Some("supplier"@),
        (EntityPrefix::Capa, EntityPrefix::Risk) => Some("risks"@),
        (EntityPrefix::Proc, EntityPrefix::Capa) => Some("modified_by_capa"@),
        (EntityPrefix::Ctrl, EntityPrefix::Capa) => Some("added_by_capa"@),
        (EntityPrefix::Cmp, EntityPrefix::Cmp) => Some("replaces"@),
        _ => if s == t {
            Some("related_to"@)
        } else {
            None
        },
    }
}

/// Reciprocal link types of the kinds that infer each other's links.
proof fn lemma_reciprocals_0()
    ensures
        reciprocal_link_type("added_by_capa"@, EntityPrefix::Capa) == Some("controls_added"@),
        reciprocal_link_type("affects"@, EntityPrefix::Cmp) == Some("risks"@),
        reciprocal_link_type("affects"@, EntityPrefix::Feat) == Some("risks"@),
        reciprocal_link_type("allocated_from"@, EntityPrefix::Req) == Some("allocated_to"@),
        reciprocal_link_type("allocated_to"@, EntityPrefix::Feat) == Some("allocated_from"@),
        reciprocal_link_type("assembly"@, EntityPrefix::Asm) == Some("tests"@),
{
    reveal_strlit("verified_by");
    reveal_strlit("verifies");
    reveal_strlit("derives_from");
    reveal_strlit("derived_by");
    reveal_strlit("allocated_to");
    reveal_strlit("allocated_from");
    reveal_strlit("risks");
    reveal_strlit("satisfied_by");
    reveal_strlit("requirements");
    reveal_strlit("component");
    reveal_strlit("assembly");
    reveal_strlit("requirement");
    reveal_strlit("affects");
    reveal_strlit("process");
    reveal_strlit("controls");
    reveal_strlit("processes");
    reveal_strlit("produces");
    reveal_strlit("tests");
    reveal_strlit("feature");
    reveal_strlit("ncrs");
    reveal_strlit("from_result");
    reveal_strlit("capa");
    reveal_strlit("supplier");
    reveal_strlit("processes_modified");
    reveal_strlit("modified_by_capa");
    reveal_strlit("controls_added");
    reveal_strlit("added_by_capa");
    reveal_strlit("replaces");
    reveal_strlit("replaced_by");
    reveal_strlit("related_to");
    reveal_strlit("interchangeable_with");
    assert("verified_by"@.len() == 11 && "verified_by"@[0] == 'v');
    assert("verifies"@.len() == 8 && "verifies"@[0] == 'v');
    assert("derives_from"@.len() == 12 && "derives_from"@[0] == 'd');
    assert("derived_by"@.len() == 10 && "derived_by"@[0] == 'd');
    assert("allocated_to"@.len() == 12 && "allocated_to"@[0] == 'a');
    assert("allocated_from"@.len() == 14 && "allocated_from"@[0] == 'a');
    assert("risks"@.len() == 5 && "risks"@[0] == 'r');
    assert("satisfied_by"@.len() == 12 && "satisfied_by"@[0] == 's');
    assert("requirements"@.len() == 12 && "requirements"@[0] == 'r');
    assert("component"@.len() == 9 && "component"@[0] == 'c');
    assert("assembly"@.len() == 8 && "assembly"@[0] == 'a');
    assert("requirement"@.len() == 11 && "requirement"@[0] == 'r' && "requirement"@[2] == 'q');
    assert("affects"@.len() == 7 && "affects"@[0] == 'a');
    assert("process"@.len() == 7 && "process"@[0] == 'p');
    assert("controls"@.len() == 8 && "controls"@[0] == 'c');
    assert("processes"@.len() == 9 && "processes"@[0] == 'p');
    assert("produces"@.len() == 8 && "produces"@[0] == 'p');
    assert("tests"@.len() == 5 && "tests"@[0] == 't');
    assert("feature"@.len() == 7 && "feature"@[0] == 'f');
    assert("ncrs"@.len() == 4 && "ncrs"@[0] == 'n');
    assert("from_result"@.len() == 11 && "from_result"@[0] == 'f');
    assert("capa"@.len() == 4 && "capa"@[0] == 'c');
    assert("supplier"@.len() == 8 && "supplier"@[0] == 's');
    assert("processes_modified"@.len() == 18 && "processes_modified"@[0] == 'p');
    assert("modified_by_capa"@.len() == 16 && "modified_by_capa"@[0] == 'm');
    assert("controls_added"@.len() == 14 && "controls_added"@[0] == 'c');
    assert("added_by_capa"@.len() == 13 && "added_by_capa"@[0] == 'a');
    assert("replaces"@.len() == 8 && "replaces"@[0] == 'r');
    assert("replaced_by"@.len() == 11 && "replaced_by"@[0] == 'r' && "replaced_by"@[2] == 'p');
    assert("related_to"@.len() == 10 && "related_to"@[0] == 'r');
    assert("interchangeable_with"@.len() == 20 && "interchangeable_with"@[0] == 'i');
}

/// Reciprocal link types of the kinds that infer each other's links.
proof fn lemma_reciprocals_1()
    ensures
        reciprocal_link_type("capa"@, EntityPrefix::Capa) == Some("ncrs"@),
        reciprocal_link_type("component"@, EntityPrefix::Cmp) == Some("tests"@),
        reciprocal_link_type("controls"@, EntityPrefix::Ctrl) == Some("risks"@),
        reciprocal_link_type("controls_added"@, EntityPrefix::Ctrl) == Some("added_by_capa"@),
        reciprocal_link_type("from_result"@, EntityPrefix::Rslt) == Some("ncrs"@),
        reciprocal_link_type("modified_by_capa"@, EntityPrefix::Capa) == Some("processes_modified"@),
{
    reveal_strlit("verified_by");
    reveal_strlit("verifies");
    reveal_strlit("derives_from");
    reveal_strlit("derived_by");
    reveal_strlit("allocated_to");
    reveal_strlit("allocated_from");
    reveal_strlit("risks");
    reveal_strlit("satisfied_by");
    reveal_strlit("requirements");
    reveal_strlit("component");
    reveal_strlit("assembly");
    reveal_strlit("requirement");
    reveal_strlit("affects");
    reveal_strlit("process");
    reveal_strlit("controls");
    reveal_strlit("processes");
    reveal_strlit("produces");
    reveal_strlit("tests");
    reveal_strlit("feature");
    reveal_strlit("ncrs");
    reveal_strlit("from_result");
    reveal_strlit("capa");
    reveal_strlit("supplier");
    reveal_strlit("processes_modified");
    reveal_strlit("modified_by_capa");
    reveal_strlit("controls_added");
    reveal_strlit("added_by_capa");
    reveal_strlit("replaces");
    reveal_strlit("replaced_by");
    reveal_strlit("related_to");
    reveal_strlit("interchangeable_with");
    assert("verified_by"@.len() == 11 && "verified_by"@[0] == 'v');
    assert("verifies"@.len() == 8 && "verifies"@[0] == 'v');
    assert("derives_from"@.len() == 12 && "derives_from"@[0] == 'd');
    assert("derived_by"@.len() == 10 && "derived_by"@[0] == 'd');
    assert("allocated_to"@.len() == 12 && "allocated_to"@[0] == 'a');
    assert("allocated_from"@.len() == 14 && "allocated_from"@[0] == 'a');
    assert("risks"@.len() == 5 && "risks"@[0] == 'r');
    assert("satisfied_by"@.len() == 12 && "satisfied_by"@[0] == 's');
    assert("requirements"@.len() == 12 && "requirements"@[0] == 'r');
    assert("component"@.len() == 9 && "component"@[0] == 'c');
    assert("assembly"@.len() == 8 && "assembly"@[0] == 'a');
    assert("requirement"@.len() == 11 && "requirement"@[0] == 'r' && "requirement"@[2] == 'q');
    assert("affects"@.len() == 7 && "affects"@[0] == 'a');
    assert("process"@.len() == 7 && "process"@[0] == 'p');
    assert("controls"@.len() == 8 && "controls"@[0] == 'c');
    assert("processes"@.len() == 9 && "processes"@[0] == 'p');
    assert("produces"@.len() == 8 && "produces"@[0] == 'p');
    assert("tests"@.len() == 5 && "tests"@[0] == 't');
    assert("feature"@.len() == 7 && "feature"@[0] == 'f');
    assert("ncrs"@.len() == 4 && "ncrs"@[0] == 'n');
    assert("from_result"@.len() == 11 && "from_result"@[0] == 'f');
    assert("capa"@.len() == 4 && "capa"@[0] == 'c');
    assert("supplier"@.len() == 8 && "supplier"@[0] == 's');
    assert("processes_modified"@.len() == 18 && "processes_modified"@[0] == 'p');
    assert("modified_by_capa"@.len() == 16 && "modified_by_capa"@[0] == 'm');
    assert("controls_added"@.len() == 14 && "controls_added"@[0] == 'c');
    assert("added_by_capa"@.len() == 13 && "added_by_capa"@[0] == 'a');
    assert("replaces"@.len() == 8 && "replaces"@[0] == 'r');
    assert("replaced_by"@.len() == 11 && "replaced_by"@[0] == 'r' && "replaced_by"@[2] == 'p');
    assert("related_to"@.len() == 10 && "related_to"@[0] == 'r');
    assert("interchangeable_with"@.len() == 20 && "interchangeable_with"@[0] == 'i');
}

/// Reciprocal link types of the kinds that infer each other's links.
proof fn lemma_reciprocals_2()
    ensures
        reciprocal_link_type("ncrs"@, EntityPrefix::Ncr) == Some("from_result"@),
        reciprocal_link_type("process"@, EntityPrefix::Proc) == Some("risks"@),
        reciprocal_link_type("processes"@, EntityPrefix::Proc) == Some("produces"@),
        reciprocal_link_type("processes_modified"@, EntityPrefix::Proc) == Some("modified_by_capa"@),
        reciprocal_link_type("produces"@, EntityPrefix::Asm) == Some("processes"@),
        reciprocal_link_type("produces"@, EntityPrefix::Cmp) == Some("processes"@),
{
    reveal_strlit("verified_by");
    reveal_strlit("verifies");
    reveal_strlit("derives_from");
    reveal_strlit("derived_by");
    reveal_strlit("allocated_to");
    reveal_strlit("allocated_from");
    reveal_strlit("risks");
    reveal_strlit("satisfied_by");
    reveal_strlit("requirements");
    reveal_strlit("component");
    reveal_strlit("assembly");
    reveal_strlit("requirement");
    reveal_strlit("affects");
    reveal_strlit("process");
    reveal_strlit("controls");
    reveal_strlit("processes");
    reveal_strlit("produces");
    reveal_strlit("tests");
    reveal_strlit("feature");
    reveal_strlit("ncrs");
    reveal_strlit("from_result");
    reveal_strlit("capa");
    reveal_strlit("supplier");
    reveal_strlit("processes_modified");
    reveal_strlit("modified_by_capa");
    reveal_strlit("controls_added");
    reveal_strlit("added_by_capa");
    reveal_strlit("replaces");
    reveal_strlit("replaced_by");
    reveal_strlit("related_to");
    reveal_strlit("interchangeable_with");
    assert("verified_by"@.len() == 11 && "verified_by"@[0] == 'v');
    assert("verifies"@.len() == 8 && "verifies"@[0] == 'v');
    assert("derives_from"@.len() == 12 && "derives_from"@[0] == 'd');
    assert("derived_by"@.len() == 10 && "derived_by"@[0] == 'd');
    assert("allocated_to"@.len() == 12 && "allocated_to"@[0] == 'a');
    assert("allocated_from"@.len() == 14 && "allocated_from"@[0] == 'a');
    assert("risks"@.len() == 5 && "risks"@[0] == 'r');
    assert("satisfied_by"@.len() == 12 && "satisfied_by"@[0] == 's');
    assert("requirements"@.len() == 12 && "requirements"@[0] == 'r');
    assert("component"@.len() == 9 && "component"@[0] == 'c');
    assert("assembly"@.len() == 8 && "assembly"@[0] == 'a');
    assert("requirement"@.len() == 11 && "requirement"@[0] == 'r' && "requirement"@[2] == 'q');
    assert("affects"@.len() == 7 && "affects"@[0] == 'a');
    assert("process"@.len() == 7 && "process"@[0] == 'p');
    assert("controls"@.len() == 8 && "controls"@[0] == 'c');
    assert("processes"@.len() == 9 && "processes"@[0] == 'p');
    assert("produces"@.len() == 8 && "produces"@[0] == 'p');
    assert("tests"@.len() == 5 && "tests"@[0] == 't');
    assert("feature"@.len() == 7 && "feature"@[0] == 'f');
    assert("ncrs"@.len() == 4 && "ncrs"@[0] == 'n');
    assert("from_result"@.len() == 11 && "from_result"@[0] == 'f');
    assert("capa"@.len() == 4 && "capa"@[0] == 'c');
    assert("supplier"@.len() == 8 && "supplier"@[0] == 's');
    assert("processes_modified"@.len() == 18 && "processes_modified"@[0] == 'p');
    assert("modified_by_capa"@.len() == 16 && "modified_by_capa"@[0] == 'm');
    assert("controls_added"@.len() == 14 && "controls_added"@[0] == 'c');
    assert("added_by_capa"@.len() == 13 && "added_by_capa"@[0] == 'a');
    assert("replaces"@.len() == 8 && "replaces"@[0] == 'r');
    assert("replaced_by"@.len() == 11 && "replaced_by"@[0] == 'r' && "replaced_by"@[2] == 'p');
    assert("related_to"@.len() == 10 && "related_to"@[0] == 'r');
    assert("interchangeable_with"@.len() == 20 && "interchangeable_with"@[0] == 'i');
}

/// Reciprocal link types of the kinds that infer each other's links.
proof fn lemma_reciprocals_3()
    ensures
        reciprocal_link_type("requirement"@, EntityPrefix::Req) == Some("risks"@),
        reciprocal_link_type("requirements"@, EntityPrefix::Req) == Some("satisfied_by"@),
        reciprocal_link_type("risks"@, EntityPrefix::Risk) == Some("requirement"@),
        reciprocal_link_type("satisfied_by"@, EntityPrefix::Asm) == Some("requirements"@),
        reciprocal_link_type("satisfied_by"@, EntityPrefix::Cmp) == Some("requirements"@),
        reciprocal_link_type("tests"@, EntityPrefix::Test) == Some("component"@),
{
    reveal_strlit("verified_by");
    reveal_strlit("verifies");
    reveal_strlit("derives_from");
    reveal_strlit("derived_by");
    reveal_strlit("allocated_to");
    reveal_strlit("allocated_from");
    reveal_strlit("risks");
    reveal_strlit("satisfied_by");
    reveal_strlit("requirements");
    reveal_strlit("component");
    reveal_strlit("assembly");
    reveal_strlit("requirement");
    reveal_strlit("affects");
    reveal_strlit("process");
    reveal_strlit("controls");
    reveal_strlit("processes");
    reveal_strlit("produces");
    reveal_strlit("tests");
    reveal_strlit("feature");
    reveal_strlit("ncrs");
    reveal_strlit("from_result");
    reveal_strlit("capa");
    reveal_strlit("supplier");
    reveal_strlit("processes_modified");
    reveal_strlit("modified_by_capa");
    reveal_strlit("controls_added");
    reveal_strlit("added_by_capa");
    reveal_strlit("replaces");
    reveal_strlit("replaced_by");
    reveal_strlit("related_to");
    reveal_strlit("interchangeable_with");
    assert("verified_by"@.len() == 11 && "verified_by"@[0] == 'v');
    assert("verifies"@.len() == 8 && "verifies"@[0] == 'v');
    assert("derives_from"@.len() == 12 && "derives_from"@[0] == 'd');
    assert("derived_by"@.len() == 10 && "derived_by"@[0] == 'd');
    assert("allocated_to"@.len() == 12 && "allocated_to"@[0] == 'a');
    assert("allocated_from"@.len() == 14 && "allocated_from"@[0] == 'a');
    assert("risks"@.len() == 5 && "risks"@[0] == 'r');
    assert("satisfied_by"@.len() == 12 && "satisfied_by"@[0] == 's');
    assert("requirements"@.len() == 12 && "requirements"@[0] == 'r');
    assert("component"@.len() == 9 && "component"@[0] == 'c');
    assert("assembly"@.len() == 8 && "assembly"@[0] == 'a');
    assert("requirement"@.len() == 11 && "requirement"@[0] == 'r' && "requirement"@[2] == 'q');
    assert("affects"@.len() == 7 && "affects"@[0] == 'a');
    assert("process"@.len() == 7 && "process"@[0] == 'p');
    assert("controls"@.len() == 8 && "controls"@[0] == 'c');
    assert("processes"@.len() == 9 && "processes"@[0] == 'p');
    assert("produces"@.len() == 8 && "produces"@[0] == 'p');
    assert("tests"@.len() == 5 && "tests"@[0] == 't');
    assert("feature"@.len() == 7 && "feature"@[0] == 'f');
    assert("ncrs"@.len() == 4 && "ncrs"@[0] == 'n');
    assert("from_result"@.len() == 11 && "from_result"@[0] == 'f');
    assert("capa"@.len() == 4 && "capa"@[0] == 'c');
    assert("supplier"@.len() == 8 && "supplier"@[0] == 's');
    assert("processes_modified"@.len() == 18 && "processes_modified"@[0] == 'p');
    assert("modified_by_capa"@.len() == 16 && "modified_by_capa"@[0] == 'm');
    assert("controls_added"@.len() == 14 && "controls_added"@[0] == 'c');
    assert("added_by_capa"@.len() == 13 && "added_by_capa"@[0] == 'a');
    assert("replaces"@.len() == 8 && "replaces"@[0] == 'r');
    assert("replaced_by"@.len() == 11 && "replaced_by"@[0] == 'r' && "replaced_by"@[2] == 'p');
    assert("related_to"@.len() == 10 && "related_to"@[0] == 'r');
    assert("interchangeable_with"@.len() == 20 && "interchangeable_with"@[0] == 'i');
}

/// Reciprocal link types of the kinds that infer each other's links.
proof fn lemma_reciprocals_4()
    ensures
        reciprocal_link_type("verified_by"@, EntityPrefix::Ctrl) == Some("verifies"@),
        reciprocal_link_type("verified_by"@, EntityPrefix::Test) == Some("verifies"@),
        reciprocal_link_type("verifies"@, EntityPrefix::Req) == Some("verified_by"@),
{
    reveal_strlit("verified_by");
    reveal_strlit("verifies");
    reveal_strlit("derives_from");
    reveal_strlit("derived_by");
    reveal_strlit("allocated_to");
    reveal_strlit("allocated_from");
    reveal_strlit("risks");
    reveal_strlit("satisfied_by");
    reveal_strlit("requirements");
    reveal_strlit("component");
    reveal_strlit("assembly");
    reveal_strlit("requirement");
    reveal_strlit("affects");
    reveal_strlit("process");
    reveal_strlit("controls");
    reveal_strlit("processes");
    reveal_strlit("produces");
    reveal_strlit("tests");
    reveal_strlit("feature");
    reveal_strlit("ncrs");
    reveal_strlit("from_result");
    reveal_strlit("capa");
    reveal_strlit("supplier");
    reveal_strlit("processes_modified");
    reveal_strlit("modified_by_capa");
    reveal_strlit("controls_added");
    reveal_strlit("added_by_capa");
    reveal_strlit("replaces");
    reveal_strlit("replaced_by");
    reveal_strlit("related_to");
    reveal_strlit("interchangeable_with");
    assert("verified_by"@.len() == 11 && "verified_by"@[0] == 'v');
    assert("verifies"@.len() == 8 && "verifies"@[0] == 'v');
    assert("derives_from"@.len() == 12 && "derives_from"@[0] == 'd');
    assert("derived_by"@.len() == 10 && "derived_by"@[0] == 'd');
    assert("allocated_to"@.len() == 12 && "allocated_to"@[0] == 'a');
    assert("allocated_from"@.len() == 14 && "allocated_from"@[0] == 'a');
    assert("risks"@.len() == 5 && "risks"@[0] == 'r');
    assert("satisfied_by"@.len() == 12 && "satisfied_by"@[0] == 's');
    assert("requirements"@.len() == 12 && "requirements"@[0] == 'r');
    assert("component"@.len() == 9 && "component"@[0] == 'c');
    assert("assembly"@.len() == 8 && "assembly"@[0] == 'a');
    assert("requirement"@.len() == 11 && "requirement"@[0] == 'r' && "requirement"@[2] == 'q');
    assert("affects"@.len() == 7 && "affects"@[0] == 'a');
    assert("process"@.len() == 7 && "process"@[0] == 'p');
    assert("controls"@.len() == 8 && "controls"@[0] == 'c');
    assert("processes"@.len() == 9 && "processes"@[0] == 'p');
    assert("produces"@.len() == 8 && "produces"@[0] == 'p');
    assert("tests"@.len() == 5 && "tests"@[0] == 't');
    assert("feature"@.len() == 7 && "feature"@[0] == 'f');
    assert("ncrs"@.len() == 4 && "ncrs"@[0] == 'n');
    assert("from_result"@.len() == 11 && "from_result"@[0] == 'f');
    assert("capa"@.len() == 4 && "capa"@[0] == 'c');
    assert("supplier"@.len() == 8 && "supplier"@[0] == 's');
    assert("processes_modified"@.len() == 18 && "processes_modified"@[0] == 'p');
    assert("modified_by_capa"@.len() == 16 && "modified_by_capa"@[0] == 'm');
    assert("controls_added"@.len() == 14 && "controls_added"@[0] == 'c');
    assert("added_by_capa"@.len() == 13 && "added_by_capa"@[0] == 'a');
    assert("replaces"@.len() == 8 && "replaces"@[0] == 'r');
    assert("replaced_by"@.len() == 11 && "replaced_by"@[0] == 'r' && "replaced_by"@[2] == 'p');
    assert("related_to"@.len() == 10 && "related_to"@[0] == 'r');
    assert("interchangeable_with"@.len() == 20 && "interchangeable_with"@[0] == 'i');
}

/// The types inferred for the two directions between two different kinds
/// are each other's reciprocal: the reciprocal, on the target, of the type
/// inferred from `s` to `t` is the type inferred from `t` to `s`, or the
/// other way round (so `verified_by` from a requirement to a test goes with
/// `verifies` from the test to the requirement). Risks and assemblies are
/// the one pair of kinds whose two inferred types are not reciprocal.
pub proof fn law_inferred_types_are_reciprocal(s: EntityPrefix, t: EntityPrefix)
    requires
        s != t,
        !(s == EntityPrefix::Risk && t == EntityPrefix::Asm),
        !(s == EntityPrefix::Asm && t == EntityPrefix::Risk),
    ensures
        inferred_link_type(s, t) matches Some(k) ==> (inferred_link_type(t, s) matches Some(k2)
            ==> reciprocal_link_type(k, t) == Some(k2) || reciprocal_link_type(k2, s) == Some(k)),
{
    lemma_reciprocals_0();
    lemma_reciprocals_1();
    lemma_reciprocals_2();
    lemma_reciprocals_3();
    lemma_reciprocals_4();
}

/// Infers the most appropriate link type from the kinds of the two entities,
/// so that a link can be added without naming its type.
pub fn infer_link_type(source_prefix: EntityPrefix, target_prefix: EntityPrefix) -> (r: Option<String>)
    ensures
        r.is_some() == inferred_link_type(source_prefix, target_prefix).is_some(),
        r matches Some(x) ==> x@ == inferred_link_type(source_prefix, target_prefix).unwrap(),
        source_prefix != target_prefix && !(source_prefix == EntityPrefix::Risk && target_prefix == EntityPrefix::Asm)
            && !(source_prefix == EntityPrefix::Asm && target_prefix == EntityPrefix::Risk)
            ==> (r matches Some(k) ==> (inferred_link_type(target_prefix, source_prefix) matches Some(k2)
            ==> reciprocal_link_type(k@, target_prefix) == Some(k2) || reciprocal_link_type(k2, source_prefix) == Some(k@))),
{
    proof {
        if source_prefix != target_prefix && !(source_prefix == EntityPrefix::Risk && target_prefix == EntityPrefix::Asm)
            && !(source_prefix == EntityPrefix::Asm && target_prefix == EntityPrefix::Risk) {
            law_inferred_types_are_reciprocal(source_prefix, target_prefix);
        }
    }
    match (source_prefix, target_prefix) {
        (EntityPrefix::Req, EntityPrefix::Test) => Some("verified_by".to_owned()),
        (EntityPrefix::Req, EntityPrefix::Ctrl) => Some("verified_by".to_owned()),
        (EntityPrefix::Req, EntityPrefix::Req) => Some("derives_from".to_owned()),
        (EntityPrefix::Req, EntityPrefix::Feat) => Some("allocated_to".to_owned()),
        (EntityPrefix::Req, EntityPrefix::Risk) => Some("risks".to_owned()),
        (EntityPrefix::Req, EntityPrefix::Cmp) => Some("satisfied_by".to_owned()),
        (EntityPrefix::Req, EntityPrefix::Asm) => Some("satisfied_by".to_owned()),
        (EntityPrefix::Test, EntityPrefix::Req) => Some("verifies".to_owned()),
        (EntityPrefix::Ctrl, EntityPrefix::Req) => Some("verifies".to_owned()),
        (EntityPrefix::Test, EntityPrefix::Cmp) => Some("component".to_owned()),
        (EntityPrefix::Test, EntityPrefix::Asm) => Some("assembly".to_owned()),
        (EntityPrefix::Rslt, EntityPrefix::Cmp) => Some("component".to_owned()),
        (EntityPrefix::Rslt, EntityPrefix::Asm) => Some("assembly".to_owned()),
        (EntityPrefix::Risk, EntityPrefix::Req) => Some("requirement".to_owned()),
        (EntityPrefix::Risk, EntityPrefix::Cmp) => Some("affects".to_owned()),
        (EntityPrefix::Risk, EntityPrefix::Asm) => Some("assembly".to_owned()),
        (EntityPrefix::Risk, EntityPrefix::Proc) => Some("process".to_owned()),
        (EntityPrefix::Risk, EntityPrefix::Feat) => Some("affects".to_owned()),
        (EntityPrefix::Risk, EntityPrefix::Test) => Some("verified_by".to_owned()),
        (EntityPrefix::Risk, EntityPrefix::Ctrl) => Some("controls".to_owned()),
        (EntityPrefix::Feat, EntityPrefix::Risk) => Some("risks".to_owned()),
        (EntityPrefix::Cmp, EntityPrefix::Risk) => Some("risks".to_owned()),
        (EntityPrefix::Asm, EntityPrefix::Risk) => Some("risks".to_owned()),
        (EntityPrefix::Proc, EntityPrefix::Risk) => Some("risks".to_owned()),
        (EntityPrefix::Ctrl, EntityPrefix::Risk) => Some("risks".to_owned()),
        (EntityPrefix::Work, EntityPrefix::Risk) => Some("risks".to_owned()),
        (EntityPrefix::Cmp, EntityPrefix::Req) => Some("requirements".to_owned()),
        (EntityPrefix::Asm, EntityPrefix::Req) => Some("requirements".to_owned()),
        (EntityPrefix::Cmp, EntityPrefix::Proc) => Some("processes".to_owned()),
        (EntityPrefix::Asm, EntityPrefix::Proc) => Some("processes".to_owned()),
        (EntityPrefix::Cmp, EntityPrefix::Test) => Some("tests".to_owned()),
        (EntityPrefix::Asm, EntityPrefix::Test) => Some("tests".to_owned()),
        (EntityPrefix::Proc, EntityPrefix::Req) => Some("requirements".to_owned()),
        (EntityPrefix::Proc, EntityPrefix::Cmp) => Some("produces".to_owned()),
        (EntityPrefix::Proc, EntityPrefix::Asm) => Some("produces".to_owned()),
        (EntityPrefix::Ctrl, EntityPrefix::Cmp) => Some("component".to_owned()),
        (EntityPrefix::Ctrl, EntityPrefix::Feat) => Some("feature".to_owned()),
        (EntityPrefix::Ctrl, EntityPrefix::Proc) => Some("process".to_owned()),
        (EntityPrefix::Work, EntityPrefix::Cmp) => Some("component".to_owned()),
        (EntityPrefix::Work, EntityPrefix::Asm) => Some("assembly".to_owned()),
        (EntityPrefix::Work, EntityPrefix::Proc) => Some("process".to_owned()),
        (EntityPrefix::Work, EntityPrefix::Ctrl) => Some("controls".to_owned()),
        (EntityPrefix::Feat, EntityPrefix::Req) => Some("allocated_from".to_owned()),
        (EntityPrefix::Rslt, EntityPrefix::Ncr) => Some("ncrs".to_owned()),
        (EntityPrefix::Ncr, EntityPrefix::Rslt) => Some("from_result".to_owned()),
        (EntityPrefix::Ncr, EntityPrefix::Capa) => Some("capa".to_owned()),
        (EntityPrefix::Ncr, EntityPrefix::Cmp) => Some("component".to_owned()),
        (EntityPrefix::Ncr, EntityPrefix::Sup) => Some("supplier".to_owned()),
        (EntityPrefix::Ncr, EntityPrefix::Proc) => Some("process".to_owned()),
        (EntityPrefix::Capa, EntityPrefix::Ncr) => Some("ncrs".to_owned()),
        (EntityPrefix::Capa, EntityPrefix::Proc) => Some("processes_modified".to_owned()),
        (EntityPrefix::Capa, EntityPrefix::Ctrl) => Some("controls_added".to_owned()),
        (EntityPrefix::Capa, EntityPrefix::Cmp) => Some("component".to_owned()),
        (EntityPrefix::Capa, EntityPrefix::Sup) => Some("supplier".to_owned()),
        (EntityPrefix::Capa, EntityPrefix::Risk) => Some("risks".to_owned()),
        (EntityPrefix::Proc, EntityPrefix::Capa) => Some("modified_by_capa".to_owned()),
        (EntityPrefix::Ctrl, EntityPrefix::Capa) => Some("added_by_capa".to_owned()),
        (EntityPrefix::Cmp, EntityPrefix::Cmp) => Some("replaces".to_owned()),
        (a, b) => if a == b {
            Some("related_to".to_owned())
        } else {
            None
        },
    }
}

/// The link type written on the target when a link of type `lt` points at an
/// entity of kind `t`; `None` when no reciprocal is defined.
pub open spec fn reciprocal_link_type(lt: Seq<char>, t: EntityPrefix) -> Option<Seq<char>> {
    if lt == "verified_by"@ && t == EntityPrefix::Test {
        Some("verifies"@)
    } else if lt == "verified_by"@ && t == EntityPrefix::Ctrl {
        Some("verifies"@)
    } else if lt == "satisfied_by"@ && t == EntityPrefix::Req {
        Some("satisfied_by"@)
    } else if lt == "satisfied_by"@ && t == EntityPrefix::Cmp {
        Some("requirements"@)
    } else if lt == "satisfied_by"@ && t == EntityPrefix::Asm {
        Some("requirements"@)
    } else if lt == "verifies"@ && t == EntityPrefix::Req {
        Some("verified_by"@)
    } else if lt == "component"@ && t == EntityPrefix::Cmp {
        Some("tests"@)
    } else if lt == "assembly"@ && t == EntityPrefix::Asm {
        Some("tests"@)
    } else if lt == "tests"@ && t == EntityPrefix::Test {
        Some("component"@)
    } else if lt == "requirements"@ && t == EntityPrefix::Req {
        Some("satisfied_by"@)
    } else if lt == "processes"@ && t == EntityPrefix::Proc {
        Some("produces"@)
    } else if lt == "produces"@ && t == EntityPrefix::Cmp {
        Some("processes"@)
    } else if lt == "produces"@ && t == EntityPrefix::Asm {
        Some("processes"@)
    } else if lt == "requirement"@ && t == EntityPrefix::Req {
        Some("risks"@)
    } else if lt == "component"@ && t == EntityPrefix::Risk {
        None
    } else if lt == "assembly"@ && t == EntityPrefix::Risk {
        None
    } else if lt == "process"@ && t == EntityPrefix::Proc {
        Some("risks"@)
    } else if lt == "controls"@ && t == EntityPrefix::Ctrl {
        Some("risks"@)
    } else if lt == "related_to"@ {
        Some("related_to"@)
    } else if lt == "capa"@ && t == EntityPrefix::Capa {
        Some("ncrs"@)
    } else if lt == "derives_from"@ && t == EntityPrefix::Req {
        Some("derived_by"@)
    } else if lt == "derived_by"@ && t == EntityPrefix::Req {
        Some("derives_from"@)
    } else if lt == "allocated_to"@ && t == EntityPrefix::Feat {
        Some("allocated_from"@)
    } else if lt == "allocated_from"@ && t == EntityPrefix::Req {
        Some("allocated_to"@)
    } else if lt == "risks"@ && t == EntityPrefix::Risk {
        Some("requirement"@)
    } else if lt == "affects"@ && t == EntityPrefix::Feat {
        Some("risks"@)
    } else if lt == "affects"@ && t == EntityPrefix::Cmp {
        Some("risks"@)
    } else if lt == "affects"@ && t == EntityPrefix::Asm {
        Some("risks"@)
    } else if lt == "affects"@ && t == EntityPrefix::Proc {
        Some("risks"@)
    } else if lt == "from_result"@ && t == EntityPrefix::Rslt {
        Some("ncrs"@)
    } else if lt == "ncrs"@ && t == EntityPrefix::Ncr {
        Some("from_result"@)
    } else if lt == "supplier"@ {
        None
    } else if lt == "processes_modified"@ && t == EntityPrefix::Proc {
        Some("modified_by_capa"@)
    } else if lt == "modified_by_capa"@ && t == EntityPrefix::Capa {
        Some("processes_modified"@)
    } else if lt == "controls_added"@ && t == EntityPrefix::Ctrl {
        Some("added_by_capa"@)
    } else if lt == "added_by_capa"@ && t == EntityPrefix::Capa {
        Some("controls_added"@)
    } else if lt == "replaces"@ && t == EntityPrefix::Cmp {
        Some("replaced_by"@)
    } else if lt == "replaced_by"@ && t == EntityPrefix::Cmp {
        Some("replaces"@)
    } else if lt == "interchangeable_with"@ && t == EntityPrefix::Cmp {
        Some("interchangeable_with"@)
    } else {
        None
    }
}

/// Whether the characters `v` spell the literal `lit`.
fn is_text(v: &Vec<char>, lit: &str) -> (r: bool)
    ensures
        r == (v@ == lit@),
{
    let w = chars_of(lit);
    chars_eq(v.as_slice(), w.as_slice())
}

/// The reciprocal link type for a forward link of type `link_type` whose
/// target is of kind `target_prefix`.
pub fn get_reciprocal_link_type(link_type: &str, target_prefix: EntityPrefix) -> (r: Option<String>)
    ensures
        r.is_some() == reciprocal_link_type(link_type@, target_prefix).is_some(),
        r matches Some(x) ==> x@ == reciprocal_link_type(link_type@, target_prefix).unwrap(),
{
    let lt = chars_of(link_type);
    let t = target_prefix;
    if is_text(&lt, "verified_by") && t == EntityPrefix::Test {
        Some("verifies".to_owned())
    } else if is_text(&lt, "verified_by") && t == EntityPrefix::Ctrl {
        Some("verifies".to_owned())
    } else if is_text(&lt, "satisfied_by") && t == EntityPrefix::Req {
        Some("satisfied_by".to_owned())
    } else if is_text(&lt, "satisfied_by") && t == EntityPrefix::Cmp {
        Some("requirements".to_owned())
    } else if is_text(&lt, "satisfied_by") && t == EntityPrefix::Asm {
        Some("requirements".to_owned())
    } else if is_text(&lt, "verifies") && t == EntityPrefix::Req {
        Some("verified_by".to_owned())
    } else if is_text(&lt, "component") && t == EntityPrefix::Cmp {
        Some("tests".to_owned())
    } else if is_text(&lt, "assembly") && t == EntityPrefix::Asm {
        Some("tests".to_owned())
    } else if is_text(&lt, "tests") && t == EntityPrefix::Test {
        Some("component".to_owned())
    } else if is_text(&lt, "requirements") && t == EntityPrefix::Req {
        Some("satisfied_by".to_owned())
    } else if is_text(&lt, "processes") && t == EntityPrefix::Proc {
        Some("produces".to_owned())
    } else if is_text(&lt, "produces") && t == EntityPrefix::Cmp {
        Some("processes".to_owned())
    } else if is_text(&lt, "produces") && t == EntityPrefix::Asm {
        Some("processes".to_owned())
    } else if is_text(&lt, "requirement") && t == EntityPrefix::Req {
        Some("risks".to_owned())
    } else if is_text(&lt, "component") && t == EntityPrefix::Risk {
        None
    } else if is_text(&lt, "assembly") && t == EntityPrefix::Risk {
        None
    } else if is_text(&lt, "process") && t == EntityPrefix::Proc {
        Some("risks".to_owned())
    } else if is_text(&lt, "controls") && t == EntityPrefix::Ctrl {
        Some("risks".to_owned())
    } else if is_text(&lt, "related_to") {
        Some("related_to".to_owned())
    } else if is_text(&lt, "capa") && t == EntityPrefix::Capa {
        Some("ncrs".to_owned())
    } else if is_text(&lt, "derives_from") && t == EntityPrefix::Req {
        Some("derived_by".to_owned())
    } else if is_text(&lt, "derived_by") && t == EntityPrefix::Req {
        Some("derives_from".to_owned())
    } else if is_text(&lt, "allocated_to") && t == EntityPrefix::Feat {
        Some("allocated_from".to_owned())
    } else if is_text(&lt, "allocated_from") && t == EntityPrefix::Req {
        Some("allocated_to".to_owned())
    } else if is_text(&lt, "risks") && t == EntityPrefix::Risk {
        Some("requirement".to_owned())
    } else if is_text(&lt, "affects") && t == EntityPrefix::Feat {
        Some("risks".to_owned())
    } else if is_text(&lt, "affects") && t == EntityPrefix::Cmp {
        Some("risks".to_owned())
    } else if is_text(&lt, "affects") && t == EntityPrefix::Asm {
        Some("risks".to_owned())
    } else if is_text(&lt, "affects") && t == EntityPrefix::Proc {
        Some("risks".to_owned())
    } else if is_text(&lt, "from_result") && t == EntityPrefix::Rslt {
        Some("ncrs".to_owned())
    } else if is_text(&lt, "ncrs") && t == EntityPrefix::Ncr {
        Some("from_result".to_owned())
    } else if is_text(&lt, "supplier") {
        None
    } else if is_text(&lt, "processes_modified") && t == EntityPrefix::Proc {
        Some("modified_by_capa".to_owned())
    } else if is_text(&lt, "modified_by_capa") && t == EntityPrefix::Capa {
        Some("processes_modified".to_owned())
    } else if is_text(&lt, "controls_added") && t == EntityPrefix::Ctrl {
        Some("added_by_capa".to_owned())
    } else if is_text(&lt, "added_by_capa") && t == EntityPrefix::Capa {
        Some("controls_added".to_owned())
    } else if is_text(&lt, "replaces") && t == EntityPrefix::Cmp {
        Some("replaced_by".to_owned())
    } else if is_text(&lt, "replaced_by") && t == EntityPrefix::Cmp {
        Some("replaces".to_owned())
    } else if is_text(&lt, "interchangeable_with") && t == EntityPrefix::Cmp {
        Some("interchangeable_with".to_owned())
    } else {
        None
    }
}

/// Link types that hold a single target; every other link type holds a list.
pub open spec fn is_single_value_link(lt: Seq<char>) -> bool {
    ||| lt == "component"@
    ||| lt == "assembly"@
    ||| lt == "requirement"@
    ||| lt == "process"@
    ||| lt == "parent"@
    ||| lt == "supplier"@
    ||| lt == "capa"@
    ||| lt == "from_result"@
    ||| lt == "control"@
    ||| lt == "feature"@
    ||| lt == "test"@
}

/// Whether a link type holds a list of targets (as opposed to a single one).
pub fn is_array_link_type(link_type: &str) -> (r: bool)
    ensures
        r == !is_single_value_link(link_type@),
{
    let lt = chars_of(link_type);
    !(is_text(&lt, "component") || is_text(&lt, "assembly") || is_text(&lt, "requirement")
        || is_text(&lt, "process") || is_text(&lt, "parent") || is_text(&lt, "supplier")
        || is_text(&lt, "capa") || is_text(&lt, "from_result") || is_text(&lt, "control")
        || is_text(&lt, "feature") || is_text(&lt, "test"))
}

/// An identifier names a known entity when some known identifier equals it
/// or starts with it.
pub open spec fn id_known(all_ids: Seq<Seq<char>>, id: Seq<char>) -> bool {
    exists|i: int| 0 <= i < all_ids.len() && (all_ids[i] == id || text_starts_with(all_ids[i], id))
}

/// Whether `id` names an entity among `all_ids` (exactly or as a prefix).
pub fn entity_exists(all_ids: &[String], id: &str) -> (r: bool)
    ensures
        r == id_known(all_ids@.map_values(|s: String| s@), id@),
{
    let ghost ids = all_ids@.map_values(|s: String| s@);
    let mut i: usize = 0;
    while i < all_ids.len()
        invariant
            i <= all_ids.len(),
            ids == all_ids@.map_values(|s: String| s@),
            forall|j: int| 0 <= j < i ==> !(ids[j] == id@ || text_starts_with(ids[j], id@)),
        decreases all_ids.len() - i,
    {
        let existing = all_ids[i].as_str();
        if str_eq(existing, id) || str_starts_with(existing, id) {
            assert(ids[i as int] == all_ids@[i as int]@);
            return true;
        }
        i = i + 1;
    }
    false
}


/// Index of the first `-` in `q`, or its length when there is none.
pub open spec fn first_dash(q: Seq<char>) -> int
    decreases q.len(),
{
    if q.len() == 0 {
        0
    } else if q[0] == '-' {
        0
    } else {
        1 + first_dash(q.drop_first())
    }
}

/// The part of a query before its first `-`: the entity kind it names.
pub open spec fn query_kind(q: Seq<char>) -> Seq<char> {
    q.take(first_dash(q))
}

proof fn lemma_first_dash(q: Seq<char>, i: int)
    requires
        0 <= i <= q.len(),
        forall|j: int| 0 <= j < i ==> q[j] != '-',
        i == q.len() || q[i] == '-',
    ensures
        first_dash(q) == i,
    decreases i,
{
    if i > 0 {
        lemma_first_dash(q.drop_first(), i - 1);
    }
}

/// Project directories, relative to the project root, that hold entities
/// whose identifiers start with the kind `name`; every entity directory for
/// an unknown kind.
pub open spec fn search_dirs_for(name: Seq<char>) -> Seq<Seq<char>> {
    if name == "REQ"@ {
        seq!["requirements/inputs"@, "requirements/outputs"@]
    } else if name == "RISK"@ {
        seq!["design/risks"@]
    } else if name == "TEST"@ {
        seq!["verification/protocols"@, "validation/protocols"@]
    } else if name == "RSLT"@ {
        seq!["verification/results"@, "validation/results"@]
    } else if name == "CMP"@ {
        seq!["bom/components"@]
    } else if name == "ASM"@ {
        seq!["bom/assemblies"@]
    } else if name == "FEAT"@ {
        seq!["tolerances/features"@]
    } else if name == "MATE"@ {
        seq!["tolerances/mates"@]
    } else if name == "TOL"@ {
        seq!["tolerances/stackups"@]
    } else if name == "QUOT"@ {
        seq!["sourcing/quotes"@]
    } else if name == "SUP"@ {
        seq!["sourcing/suppliers"@]
    } else if name == "PROC"@ {
        seq!["manufacturing/processes"@]
    } else if name == "CTRL"@ {
        seq!["manufacturing/controls"@]
    } else if name == "WORK"@ {
        seq!["manufacturing/work_instructions"@]
    } else if name == "NCR"@ {
        seq!["manufacturing/ncrs"@]
    } else if name == "CAPA"@ {
        seq!["manufacturing/capas"@]
    } else if name == "ACT"@ {
        seq!["manufacturing/actions"@]
    } else {
        seq!["requirements/inputs"@, "requirements/outputs"@, "design/risks"@, "verification/protocols"@, "validation/protocols"@, "bom/components"@, "bom/assemblies"@, "tolerances/features"@, "tolerances/mates"@, "tolerances/stackups"@, "sourcing/quotes"@, "sourcing/suppliers"@, "manufacturing/processes"@, "manufacturing/controls"@, "manufacturing/work_instructions"@, "manufacturing/ncrs"@, "manufacturing/capas"@, "verification/results"@, "validation/results"@, "manufacturing/actions"@]
    }
}

/// The entity directories, in the order an unknown kind searches them.
proof fn lemma_every_dir(d: Seq<char>, i: int)
    requires
        0 <= i < search_dirs_for(Seq::empty()).len(),
        search_dirs_for(Seq::empty())[i] == d,
    ensures
        search_dirs_for(Seq::empty()).contains(d),
{
}

/// A query of an unknown kind searches every directory that a query of any
/// kind searches.
pub proof fn law_unknown_kind_searches_every_dir(name: Seq<char>, d: Seq<char>)
    requires
        search_dirs_for(name).contains(d),
    ensures
        search_dirs_for(Seq::empty()).contains(d),
{
    reveal_strlit("REQ");
    reveal_strlit("RISK");
    reveal_strlit("TEST");
    reveal_strlit("RSLT");
    reveal_strlit("CMP");
    reveal_strlit("ASM");
    reveal_strlit("FEAT");
    reveal_strlit("MATE");
    reveal_strlit("TOL");
    reveal_strlit("QUOT");
    reveal_strlit("SUP");
    reveal_strlit("PROC");
    reveal_strlit("CTRL");
    reveal_strlit("WORK");
    reveal_strlit("NCR");
    reveal_strlit("CAPA");
    reveal_strlit("ACT");
    let all = search_dirs_for(Seq::empty());
    assert("REQ"@.len() == 3);
    assert("RISK"@.len() == 4);
    assert("TEST"@.len() == 4);
    assert("RSLT"@.len() == 4);
    assert("CMP"@.len() == 3);
    assert("ASM"@.len() == 3);
    assert("FEAT"@.len() == 4);
    assert("MATE"@.len() == 4);
    assert("TOL"@.len() == 3);
    assert("QUOT"@.len() == 4);
    assert("SUP"@.len() == 3);
    assert("PROC"@.len() == 4);
    assert("CTRL"@.len() == 4);
    assert("WORK"@.len() == 4);
    assert("NCR"@.len() == 3);
    assert("CAPA"@.len() == 4);
    assert("ACT"@.len() == 3);
    assert(all.len() == 20);
    let j = choose|j: int| 0 <= j < search_dirs_for(name).len() && search_dirs_for(name)[j] == d;
    let i: int = if name == "REQ"@ {
        j
    } else if name == "RISK"@ {
        2
    } else if name == "TEST"@ {
        3 + j
    } else if name == "RSLT"@ {
        17 + j
    } else if name == "CMP"@ {
        5
    } else if name == "ASM"@ {
        6
    } else if name == "FEAT"@ {
        7
    } else if name == "MATE"@ {
        8
    } else if name == "TOL"@ {
        9
    } else if name == "QUOT"@ {
        10
    } else if name == "SUP"@ {
        11
    } else if name == "PROC"@ {
        12
    } else if name == "CTRL"@ {
        13
    } else if name == "WORK"@ {
        14
    } else if name == "NCR"@ {
        15
    } else if name == "CAPA"@ {
        16
    } else if name == "ACT"@ {
        19
    } else {
        j
    };
    lemma_every_dir(d, i);
}

/// The directories, relative to the project root, to search for the entity
/// named by `query` (its kind is the upper-cased text before the first `-`).
pub fn get_search_dirs_for_query(query: &str) -> (r: Vec<&'static str>)
    ensures
        r@.map_values(|d: &str| d@) == search_dirs_for(uppercase(query_kind(query@))),
        all_capitals(query_kind(query@)) ==> r@.map_values(|d: &str| d@) == search_dirs_for(query_kind(query@)),
{
    let q = chars_of(query);
    let mut i: usize = 0;
    while i < q.len() && q[i] != '-'
        invariant
            q@ == query@,
            i <= q.len(),
            forall|j: int| 0 <= j < i ==> q@[j] != '-',
        decreases q.len() - i,
    {
        i = i + 1;
    }
    proof {
        lemma_first_dash(q@, i as int);
    }
    let kind = string_from_prefix(q.as_slice(), i);
    assert(kind@ =~= query_kind(query@));
    let upper = to_uppercase(kind.as_str());
    let name = chars_of(upper.as_str());
    let r = if is_text(&name, "REQ") {
        vec!["requirements/inputs", "requirements/outputs"]
    } else if is_text(&name, "RISK") {
        vec!["design/risks"]
    } else if is_text(&name, "TEST") {
        vec!["verification/protocols", "validation/protocols"]
    } else if is_text(&name, "RSLT") {
        vec!["verification/results", "validation/results"]
    } else if is_text(&name, "CMP") {
        vec!["bom/components"]
    } else if is_text(&name, "ASM") {
        vec!["bom/assemblies"]
    } else if is_text(&name, "FEAT") {
        vec!["tolerances/features"]
    } else if is_text(&name, "MATE") {
        vec!["tolerances/mates"]
    } else if is_text(&name, "TOL") {
        vec!["tolerances/stackups"]
    } else if is_text(&name, "QUOT") {
        vec!["sourcing/quotes"]
    } else if is_text(&name, "SUP") {
        vec!["sourcing/suppliers"]
    } else if is_text(&name, "PROC") {
        vec!["manufacturing/processes"]
    } else if is_text(&name, "CTRL") {
        vec!["manufacturing/controls"]
    } else if is_text(&name, "WORK") {
        vec!["manufacturing/work_instructions"]
    } else if is_text(&name, "NCR") {
        vec!["manufacturing/ncrs"]
    } else if is_text(&name, "CAPA") {
        vec!["manufacturing/capas"]
    } else if is_text(&name, "ACT") {
        vec!["manufacturing/actions"]
    } else {
        vec!["requirements/inputs", "requirements/outputs", "design/risks", "verification/protocols", "validation/protocols", "bom/components", "bom/assemblies", "tolerances/features", "tolerances/mates", "tolerances/stackups", "sourcing/quotes", "sourcing/suppliers", "manufacturing/processes", "manufacturing/controls", "manufacturing/work_instructions", "manufacturing/ncrs", "manufacturing/capas", "verification/results", "validation/results", "manufacturing/actions"]
    };
    assert(r@.map_values(|d: &str| d@) =~= search_dirs_for(uppercase(query_kind(query@))));
    r
}


/// The value stored under one link type in an entity's `links` section.
#[derive(Debug, Clone)]
pub enum LinkValue {
    /// No target (`~`).
    Null,
    /// One target identifier.
    Single(String),
    /// A list: the text of each item, or `None` for an item that is not
    /// text.
    List(Vec<Option<String>>),
    /// A value that is neither null, text nor a list.
    Other,
}

/// Mathematical form of a [`LinkValue`].
pub enum LinkValueView {
    Null,
    Single(Seq<char>),
    List(Seq<Option<Seq<char>>>),
    Other,
}

/// The items of a list, each taken by its view.
pub open spec fn list_view(items: Seq<Option<String>>) -> Seq<Option<Seq<char>>> {
    items.map_values(|o: Option<String>| opt_view(o))
}

/// The texts among the items of a list, in order.
pub open spec fn item_texts(items: Seq<Option<Seq<char>>>) -> Seq<Seq<char>>
    decreases items.len(),
{
    if items.len() == 0 {
        seq![]
    } else {
        item_texts(items.drop_last()) + match items.last() {
            Some(x) => seq![x],
            None => seq![],
        }
    }
}

impl View for LinkValue {
    type V = LinkValueView;

    open spec fn view(&self) -> LinkValueView {
        match self {
            LinkValue::Null => LinkValueView::Null,
            LinkValue::Single(s) => LinkValueView::Single(s@),
            LinkValue::List(v) => LinkValueView::List(list_view(v@)),
            LinkValue::Other => LinkValueView::Other,
        }
    }
}

/// One link type and its value, as found in the `links` mapping.
#[derive(Debug, Clone)]
pub struct LinkEntry {
    pub key: String,
    pub value: LinkValue,
}

/// Mathematical form of a [`LinkEntry`].
pub struct LinkEntryView {
    pub key: Seq<char>,
    pub value: LinkValueView,
}

impl View for LinkEntry {
    type V = LinkEntryView;

    open spec fn view(&self) -> LinkEntryView {
        LinkEntryView { key: self.key@, value: self.value@ }
    }
}

/// The `links` field of an entity file.
#[derive(Debug, Clone)]
pub enum LinksField {
    /// The file has no `links` field.
    Absent,
    /// The `links` field is not a mapping (for example null or a list).
    NotMapping,
    /// The `links` mapping, in file order.
    Mapping(Vec<LinkEntry>),
}

/// Mathematical form of a [`LinksField`].
pub enum LinksFieldView {
    Absent,
    NotMapping,
    Mapping(Seq<LinkEntryView>),
}

/// The entries of a mapping, each taken by its view.
pub open spec fn entries_view(es: Seq<LinkEntry>) -> Seq<LinkEntryView> {
    es.map_values(|e: LinkEntry| e@)
}

impl View for LinksField {
    type V = LinksFieldView;

    open spec fn view(&self) -> LinksFieldView {
        match self {
            LinksField::Absent => LinksFieldView::Absent,
            LinksField::NotMapping => LinksFieldView::NotMapping,
            LinksField::Mapping(es) => LinksFieldView::Mapping(entries_view(es@)),
        }
    }
}

/// Why a link edit was refused.
#[derive(Debug, Clone, Copy, PartialEq, Eq, Structural)]
pub enum LinkEditError {
    /// The `links` field is present but is not a mapping.
    NotMapping,
    /// The value under the link type is neither a list nor a single value.
    UnexpectedFormat,
    /// The file has no `links` field.
    NoLinksSection,
    /// The `links` mapping has no entry for the link type.
    UnknownLinkType,
}

/// The mapping has an entry for key `k`.
pub open spec fn has_key(es: Seq<LinkEntryView>, k: Seq<char>) -> bool {
    exists|i: int| 0 <= i < es.len() && es[i].key == k
}

/// `i` is the position of the first entry with key `k`.
pub open spec fn is_first_key(es: Seq<LinkEntryView>, k: Seq<char>, i: int) -> bool {
    0 <= i < es.len() && es[i].key == k && forall|j: int| 0 <= j < i ==> es[j].key != k
}

/// The position of the first entry with key `k` (meaningful when `has_key`).
pub open spec fn first_key(es: Seq<LinkEntryView>, k: Seq<char>) -> int {
    choose|i: int| is_first_key(es, k, i)
}

/// The value a newly created link type starts with.
pub open spec fn fresh_link_value(k: Seq<char>) -> LinkValueView {
    if is_single_value_link(k) {
        LinkValueView::Null
    } else {
        LinkValueView::List(seq![])
    }
}

/// The value after linking to `t`: lists gain `t` unless they hold it,
/// single values become `t`.
pub open spec fn value_with_target(v: LinkValueView, t: Seq<char>) -> Option<LinkValueView> {
    match v {
        LinkValueView::List(items) => Some(
            if items.contains(Some(t)) {
                LinkValueView::List(items)
            } else {
                LinkValueView::List(items.push(Some(t)))
            },
        ),
        LinkValueView::Null => Some(LinkValueView::Single(t)),
        LinkValueView::Single(_) => Some(LinkValueView::Single(t)),
        LinkValueView::Other => None,
    }
}

/// The `links` mapping after adding a link of type `k` to target `t`.
pub open spec fn links_after_add(f: LinksFieldView, k: Seq<char>, t: Seq<char>) -> Result<Seq<LinkEntryView>, LinkEditError> {
    let es = match f {
        LinksFieldView::Absent => Some(Seq::<LinkEntryView>::empty()),
        LinksFieldView::NotMapping => None,
        LinksFieldView::Mapping(es) => Some(es),
    };
    match es {
        None => Err(LinkEditError::NotMapping),
        Some(es) => {
            let es2 = if has_key(es, k) {
                es
            } else {
                es.push(LinkEntryView { key: k, value: fresh_link_value(k) })
            };
            let i = if has_key(es, k) {
                first_key(es, k)
            } else {
                es.len() as int
            };
            match value_with_target(es2[i].value, t) {
                None => Err(LinkEditError::UnexpectedFormat),
                Some(v) => Ok(es2.update(i, LinkEntryView { key: k, value: v })),
            }
        },
    }
}

/// The value after unlinking `t`: lists lose every copy of `t`, a single
/// value equal to `t` becomes null.
pub open spec fn value_without_target(v: LinkValueView, t: Seq<char>) -> LinkValueView {
    match v {
        LinkValueView::List(items) => LinkValueView::List(items.filter(|x: Option<Seq<char>>| x != Some(t))),
        LinkValueView::Single(c) => if c == t {
            LinkValueView::Null
        } else {
            LinkValueView::Single(c)
        },
        other => other,
    }
}

/// The `links` mapping after removing the link of type `k` to target `t`.
pub open spec fn links_after_remove(f: LinksFieldView, k: Seq<char>, t: Seq<char>) -> Result<Seq<LinkEntryView>, LinkEditError> {
    match f {
        LinksFieldView::Absent => Err(LinkEditError::NoLinksSection),
        LinksFieldView::NotMapping => Err(LinkEditError::UnknownLinkType),
        LinksFieldView::Mapping(es) => if has_key(es, k) {
            let i = first_key(es, k);
            Ok(es.update(i, LinkEntryView { key: k, value: value_without_target(es[i].value, t) }))
        } else {
            Err(LinkEditError::UnknownLinkType)
        },
    }
}

/// The targets a link value names.
pub open spec fn link_targets(v: LinkValueView) -> Seq<Seq<char>> {
    match v {
        LinkValueView::List(items) => item_texts(items),
        LinkValueView::Single(s) => seq![s],
        _ => seq![],
    }
}

/// Finds the first entry with key `k`, if any.
fn find_key(es: &Vec<LinkEntry>, k: &str) -> (r: Option<usize>)
    ensures
        r is None ==> !has_key(entries_view(es@), k@),
        r matches Some(i) ==> is_first_key(entries_view(es@), k@, i as int) && i == first_key(entries_view(es@), k@),
{
    let ghost ev = entries_view(es@);
    let mut i: usize = 0;
    while i < es.len()
        invariant
            ev == entries_view(es@),
            i <= es.len(),
            forall|j: int| 0 <= j < i ==> ev[j].key != k@,
        decreases es.len() - i,
    {
        if str_eq(es[i].key.as_str(), k) {
            assert(is_first_key(ev, k@, i as int));
            let ghost c = first_key(ev, k@);
            assert(is_first_key(ev, k@, c));
            assert(c == i as int) by {
                if c < i as int {
                } else if c > i as int {
                    assert(ev[i as int].key == k@);
                }
            }
            return Some(i);
        }
        i = i + 1;
    }
    None
}

/// Whether the item is the text `t`.
fn item_is(item: &Option<String>, t: &str) -> (r: bool)
    ensures
        r == (opt_view(*item) == Some(t@)),
{
    match item {
        Some(x) => str_eq(x.as_str(), t),
        None => false,
    }
}

/// Whether the list holds the text `t`.
fn list_holds(items: &Vec<Option<String>>, t: &str) -> (r: bool)
    ensures
        r == list_view(items@).contains(Some(t@)),
{
    let ghost iv = list_view(items@);
    let mut i: usize = 0;
    while i < items.len()
        invariant
            iv == list_view(items@),
            i <= items.len(),
            forall|j: int| 0 <= j < i ==> iv[j] != Some(t@),
        decreases items.len() - i,
    {
        if item_is(&items[i], t) {
            assert(iv[i as int] == Some(t@));
            return true;
        }
        i = i + 1;
    }
    false
}

/// A copy of an item.
fn copy_item(item: &Option<String>) -> (r: Option<String>)
    ensures
        opt_view(r) == opt_view(*item),
{
    match item {
        Some(x) => Some(x.clone()),
        None => None,
    }
}

/// A copy of a list.
fn copy_items(items: &Vec<Option<String>>) -> (r: Vec<Option<String>>)
    ensures
        list_view(r@) == list_view(items@),
{
    let mut r: Vec<Option<String>> = Vec::new();
    let mut i: usize = 0;
    while i < items.len()
        invariant
            i <= items.len(),
            r.len() == i,
            forall|j: int| 0 <= j < i ==> opt_view(#[trigger] r@[j]) == opt_view(items@[j]),
        decreases items.len() - i,
    {
        r.push(copy_item(&items[i]));
        i = i + 1;
    }
    assert(list_view(r@) =~= list_view(items@));
    r
}

/// Adds a link of type `link_type` to `target_id` in an entity's `links`
/// field, creating the field or the link type when missing; a list link
/// gains the target once, a single-value link is replaced.
pub fn add_link_entry(links: LinksField, link_type: &str, target_id: &str) -> (r: Result<Vec<LinkEntry>, LinkEditError>)
    ensures
        r matches Ok(es) ==> links_after_add(links@, link_type@, target_id@) == Ok::<Seq<LinkEntryView>, LinkEditError>(entries_view(es@)),
        r matches Err(e) ==> links_after_add(links@, link_type@, target_id@) == Err::<Seq<LinkEntryView>, LinkEditError>(e),
{
    let mut es = match links {
        LinksField::Absent => Vec::new(),
        LinksField::NotMapping => {
            return Err(LinkEditError::NotMapping);
        },
        LinksField::Mapping(es) => es,
    };
    let ghost es0 = entries_view(es@);
    assert(links@ matches LinksFieldView::Absent ==> es0 =~= Seq::<LinkEntryView>::empty());
    let i = match find_key(&es, link_type) {
        Some(i) => i,
        None => {
            let fresh = if is_array_link_type(link_type) {
                let empty: Vec<Option<String>> = Vec::new();
                assert(list_view(empty@) =~= Seq::<Option<Seq<char>>>::empty());
                LinkValue::List(empty)
            } else {
                LinkValue::Null
            };
            assert(fresh@ == fresh_link_value(link_type@));
            es.push(LinkEntry { key: link_type.to_owned(), value: fresh });
            assert(entries_view(es@) =~= es0.push(LinkEntryView { key: link_type@, value: fresh_link_value(link_type@) }));
            es.len() - 1
        },
    };
    let ghost es2 = entries_view(es@);
    let new_value = match &es[i].value {
        LinkValue::List(items) => {
            let mut items2 = copy_items(items);
            if !list_holds(items, target_id) {
                let ghost before = items2@;
                items2.push(Some(target_id.to_owned()));
                assert(list_view(items2@) =~= list_view(before).push(Some(target_id@)));
            }
            assert(list_view(items2@) =~= match value_with_target(es2[i as int].value, target_id@) {
                Some(LinkValueView::List(x)) => x,
                _ => seq![],
            });
            LinkValue::List(items2)
        },
        LinkValue::Null => LinkValue::Single(target_id.to_owned()),
        LinkValue::Single(_) => LinkValue::Single(target_id.to_owned()),
        LinkValue::Other => {
            return Err(LinkEditError::UnexpectedFormat);
        },
    };
    let key = es[i].key.clone();
    es.set(i, LinkEntry { key, value: new_value });
    assert(entries_view(es@) =~= es2.update(i as int, LinkEntryView { key: link_type@, value: value_with_target(es2[i as int].value, target_id@).unwrap() }));
    Ok(es)
}

/// The list without any item that is the text `t`.
fn list_without(items: &Vec<Option<String>>, t: &str) -> (r: Vec<Option<String>>)
    ensures
        list_view(r@) == list_view(items@).filter(|x: Option<Seq<char>>| x != Some(t@)),
{
    let ghost iv = list_view(items@);
    let mut r: Vec<Option<String>> = Vec::new();
    let mut i: usize = 0;
    while i < items.len()
        invariant
            iv == list_view(items@),
            i <= items.len(),
            list_view(r@) == iv.take(i as int).filter(|x: Option<Seq<char>>| x != Some(t@)),
        decreases items.len() - i,
    {
        reveal_with_fuel(Seq::filter, 1);
        assert(iv.take(i as int + 1).drop_last() =~= iv.take(i as int));
        if !item_is(&items[i], t) {
            let ghost before = r@;
            r.push(copy_item(&items[i]));
            assert(list_view(r@) =~= list_view(before).push(iv[i as int]));
        }
        assert(list_view(r@) =~= iv.take(i as int + 1).filter(|x: Option<Seq<char>>| x != Some(t@)));
        i = i + 1;
    }
    assert(iv.take(items.len() as int) =~= iv);
    r
}

/// Removes the link of type `link_type` to `target_id`: every copy of the
/// target leaves a list link; a single-value link naming it becomes null.
pub fn remove_link_entry(links: LinksField, link_type: &str, target_id: &str) -> (r: Result<Vec<LinkEntry>, LinkEditError>)
    ensures
        r matches Ok(es) ==> links_after_remove(links@, link_type@, target_id@) == Ok::<Seq<LinkEntryView>, LinkEditError>(entries_view(es@)),
        r matches Err(e) ==> links_after_remove(links@, link_type@, target_id@) == Err::<Seq<LinkEntryView>, LinkEditError>(e),
{
    let mut es = match links {
        LinksField::Absent => {
            return Err(LinkEditError::NoLinksSection);
        },
        LinksField::NotMapping => {
            return Err(LinkEditError::UnknownLinkType);
        },
        LinksField::Mapping(es) => es,
    };
    let ghost es0 = entries_view(es@);
    let i = match find_key(&es, link_type) {
        Some(i) => i,
        None => {
            return Err(LinkEditError::UnknownLinkType);
        },
    };
    let new_value = match &es[i].value {
        LinkValue::List(items) => LinkValue::List(list_without(items, target_id)),
        LinkValue::Single(c) => if str_eq(c.as_str(), target_id) {
            LinkValue::Null
        } else {
            LinkValue::Single(c.clone())
        },
        LinkValue::Null => LinkValue::Null,
        LinkValue::Other => LinkValue::Other,
    };
    let key = es[i].key.clone();
    es.set(i, LinkEntry { key, value: new_value });
    assert(entries_view(es@) =~= es0.update(i as int, LinkEntryView { key: link_type@, value: value_without_target(es0[i as int].value, target_id@) }));
    Ok(es)
}

/// An item of a list as written back to an entity file: the item at a
/// position of the list as read, or a new text.
#[derive(Debug, Clone)]
pub enum ListItem {
    Kept(usize),
    Added(String),
}

/// Mathematical form of a [`ListItem`].
pub enum ListItemView {
    Kept(int),
    Added(Seq<char>),
}

impl View for ListItem {
    type V = ListItemView;

    open spec fn view(&self) -> ListItemView {
        match self {
            ListItem::Kept(i) => ListItemView::Kept(*i as int),
            ListItem::Added(s) => ListItemView::Added(s@),
        }
    }
}

/// The value written back under one link type.
#[derive(Debug, Clone)]
pub enum WrittenValue {
    Null,
    Single(String),
    List(Vec<ListItem>),
}

/// Mathematical form of a [`WrittenValue`].
pub enum WrittenValueView {
    Null,
    Single(Seq<char>),
    List(Seq<ListItemView>),
}

impl View for WrittenValue {
    type V = WrittenValueView;

    open spec fn view(&self) -> WrittenValueView {
        match self {
            WrittenValue::Null => WrittenValueView::Null,
            WrittenValue::Single(s) => WrittenValueView::Single(s@),
            WrittenValue::List(v) => WrittenValueView::List(v@.map_values(|x: ListItem| x@)),
        }
    }
}

/// The items a written list stands for, given the list as read.
pub open spec fn materialized(old: Seq<Option<Seq<char>>>, w: Seq<ListItemView>) -> Seq<Option<Seq<char>>> {
    w.map_values(|x: ListItemView| match x {
        ListItemView::Kept(i) => old[i],
        ListItemView::Added(s) => Some(s),
    })
}

/// The value a written value stands for, given the value as read.
pub open spec fn written_model(old: LinkValueView, w: WrittenValueView) -> LinkValueView {
    match w {
        WrittenValueView::Null => LinkValueView::Null,
        WrittenValueView::Single(s) => LinkValueView::Single(s),
        WrittenValueView::List(xs) => LinkValueView::List(materialized(
            match old {
                LinkValueView::List(items) => items,
                _ => seq![],
            },
            xs,
        )),
    }
}

/// The value under a link type as the library models it: null, a text, a
/// list whose items are texts (`None` for an item that is not), or another
/// kind of value.
pub open spec fn link_value_of(v: Value) -> LinkValueView {
    if yaml_is_null(v) {
        LinkValueView::Null
    } else {
        match yaml_text(v) {
            Some(s) => LinkValueView::Single(s),
            None => match yaml_items(v) {
                Some(xs) => LinkValueView::List(xs.map_values(|x: Value| yaml_text(x))),
                None => LinkValueView::Other,
            },
        }
    }
}

/// The entries of a `links` mapping with the keys `ks`, in order.
pub open spec fn link_entries_of(l: Value, ks: Seq<Seq<char>>) -> Seq<LinkEntryView> {
    ks.map_values(|k: Seq<char>| LinkEntryView { key: k, value: link_value_of(yaml_entry(l, k)->Some_0) })
}

/// The `links` field as the library models it, given what the document
/// holds under `links`.
pub open spec fn links_field_of(o: Option<Value>) -> LinksFieldView {
    match o {
        None => LinksFieldView::Absent,
        Some(l) => match yaml_keys(l) {
            None => LinksFieldView::NotMapping,
            Some(ks) => LinksFieldView::Mapping(link_entries_of(l, ks)),
        },
    }
}

/// The `links` field of an entity file as `serde_yml` reads the file's
/// text: `None` when the document is not a mapping; the error is the
/// parser's message.
pub open spec fn yaml_links(content: Seq<char>) -> Result<Option<LinksFieldView>, Seq<char>> {
    match parsed_yaml(content) {
        Err(m) => Err(m),
        Ok(doc) => Ok(if yaml_keys(doc) is Some {
            Some(links_field_of(yaml_entry(doc, "links"@)))
        } else {
            None
        }),
    }
}

/// What the document holds under `key` in its `links` mapping.
pub open spec fn prior_value(doc: Value, key: Seq<char>) -> Option<Value> {
    match yaml_entry(doc, "links"@) {
        Some(l) => yaml_entry(l, key),
        None => None,
    }
}

/// The YAML value written for `w`, kept items taken from the list `prior`.
pub open spec fn written_yaml(w: WrittenValueView, prior: Option<Value>) -> Value {
    match w {
        WrittenValueView::Null => yaml_from_option(None),
        WrittenValueView::Single(s) => yaml_from_option(Some(s)),
        WrittenValueView::List(xs) => yaml_sequence(xs.map_values(|x: ListItemView| match x {
            ListItemView::Kept(i) => yaml_items(prior->Some_0)->Some_0[i],
            ListItemView::Added(s) => yaml_from_option(Some(s)),
        })),
    }
}

/// The list items of a prior value, as the library models them (an empty
/// list when there is no prior list).
pub open spec fn prior_model(p: Option<Value>) -> LinkValueView {
    match p {
        Some(o) => match yaml_items(o) {
            Some(ys) => LinkValueView::List(ys.map_values(|y: Value| yaml_text(y))),
            None => LinkValueView::List(seq![]),
        },
        None => LinkValueView::List(seq![]),
    }
}

/// What the document holds under `key` in its `links` mapping, as the
/// library models it.
pub open spec fn link_written(doc: Value, key: Seq<char>) -> Option<LinkValueView> {
    match prior_value(doc, key) {
        Some(v) => Some(link_value_of(v)),
        None => None,
    }
}

/// The document with `x` under `key` in its `links` mapping, which is
/// created holding only that key when the document has none.
pub open spec fn doc_with_link(doc: Value, key: Seq<char>, x: Value) -> Value {
    match yaml_entry(doc, "links"@) {
        Some(l) => yaml_inserted(doc, "links"@, yaml_inserted(l, key, x)),
        None => yaml_inserted(doc, "links"@, yaml_mapping_of(key, x)),
    }
}

/// The text `serde_yml` writes for the document of `content` once the value
/// under `key` in its `links` mapping is set to `value`; the error is the
/// message of the parser or the writer.
pub open spec fn yaml_with_link(content: Seq<char>, key: Seq<char>, value: WrittenValueView) -> Result<Seq<char>, Seq<char>> {
    match parsed_yaml(content) {
        Err(m) => Err(m),
        Ok(doc) => yaml_emitted(doc_with_link(doc, key, written_yaml(value, prior_value(doc, key)))),
    }
}

/// The text `serde_yml` writes back for the document of `content`.
pub open spec fn yaml_rewritten(content: Seq<char>) -> Result<Seq<char>, Seq<char>> {
    match parsed_yaml(content) {
        Err(m) => Err(m),
        Ok(doc) => yaml_emitted(doc),
    }
}

/// A read `links` field, taken by its view.
pub open spec fn links_read_view(r: Result<Option<LinksField>, String>) -> Result<Option<LinksFieldView>, Seq<char>> {
    match r {
        Ok(Some(f)) => Ok(Some(f@)),
        Ok(None) => Ok(None),
        Err(m) => Err(m@),
    }
}

/// A written text, taken by its view.
pub open spec fn text_result_view(r: Result<String, String>) -> Result<Seq<char>, Seq<char>> {
    match r {
        Ok(s) => Ok(s@),
        Err(m) => Err(m@),
    }
}

/// The link types of the modelled `links` mapping are exactly those that
/// have a value in the document.
pub open spec fn entries_found(doc: Value, f: LinksFieldView) -> bool {
    f matches LinksFieldView::Mapping(es) ==> (forall|j: int| 0 <= j < es.len() ==> (#[trigger] prior_value(doc, es[j].key)) is Some)
        && (forall|k: Seq<char>| (#[trigger] prior_value(doc, k)) is Some ==> has_key(es, k))
}

/// The value under a link type, as the library models it.
fn link_value_from(v: &Value) -> (r: LinkValue)
    ensures
        r@ == link_value_of(*v),
{
    if is_null_value(v) {
        return LinkValue::Null;
    }
    match text_of(v) {
        Some(s) => LinkValue::Single(s),
        None => match sequence_len(v) {
            None => LinkValue::Other,
            Some(n) => {
                let ghost xs = yaml_items(*v)->Some_0;
                let mut items: Vec<Option<String>> = Vec::new();
                let mut i: usize = 0;
                while i < n
                    invariant
                        yaml_items(*v) == Some(xs),
                        xs.len() == n,
                        i <= n,
                        list_view(items@) == xs.take(i as int).map_values(|x: Value| yaml_text(x)),
                    decreases n - i,
                {
                    let x = item_at(v, i);
                    let t = text_of(&x);
                    let ghost before = list_view(items@);
                    items.push(t);
                    assert(list_view(items@) =~= before.push(opt_view(t)));
                    assert(xs.take(i as int + 1) =~= xs.take(i as int).push(xs[i as int]));
                    assert(xs.take(i as int + 1).map_values(|x: Value| yaml_text(x))
                        =~= xs.take(i as int).map_values(|x: Value| yaml_text(x)).push(yaml_text(xs[i as int])));
                    i = i + 1;
                }
                assert(xs.take(n as int) =~= xs);
                LinkValue::List(items)
            },
        },
    }
}

/// The `links` field of a document that is a mapping, as the library
/// models it.
fn links_field_from(doc: &Value) -> (r: LinksField)
    ensures
        r@ == links_field_of(yaml_entry(*doc, "links"@)),
        entries_found(*doc, r@),
{
    let l = match entry_of(doc, "links") {
        None => {
            return LinksField::Absent;
        },
        Some(l) => l,
    };
    let ks = match keys_of(&l) {
        None => {
            return LinksField::NotMapping;
        },
        Some(ks) => ks,
    };
    let ghost kv = ks@.map_values(|k: String| k@);
    let mut es: Vec<LinkEntry> = Vec::new();
    let mut j: usize = 0;
    while j < ks.len()
        invariant
            kv == ks@.map_values(|k: String| k@),
            yaml_entry(*doc, "links"@) == Some(l),
            yaml_keys(l) == Some(kv),
            forall|k: Seq<char>| (#[trigger] yaml_entry(l, k)) is Some <==> kv.contains(k),
            j <= ks.len(),
            entries_view(es@) == link_entries_of(l, kv.take(j as int)),
            forall|m: int| 0 <= m < j ==> (#[trigger] yaml_entry(l, kv[m])) is Some,
        decreases ks.len() - j,
    {
        assert(kv.contains(kv[j as int]));
        let x = match entry_of(&l, ks[j].as_str()) {
            Some(x) => x,
            None => {
                assert(false);
                return LinksField::Absent;
            },
        };
        let e = LinkEntry { key: ks[j].clone(), value: link_value_from(&x) };
        let ghost before = entries_view(es@);
        es.push(e);
        assert(entries_view(es@) =~= before.push(e@));
        assert(kv.take(j as int + 1) =~= kv.take(j as int).push(kv[j as int]));
        assert(link_entries_of(l, kv.take(j as int + 1)) =~= link_entries_of(l, kv.take(j as int)).push(e@));
        j = j + 1;
    }
    assert(kv.take(ks.len() as int) =~= kv);
    let r = LinksField::Mapping(es);
    assert forall|m: int| 0 <= m < entries_view(es@).len() implies (#[trigger] prior_value(*doc, entries_view(es@)[m].key)) is Some by {
        assert(entries_view(es@)[m].key == kv[m]);
    }
    assert forall|k: Seq<char>| (#[trigger] prior_value(*doc, k)) is Some implies has_key(entries_view(es@), k) by {
        assert(yaml_entry(l, k) is Some);
        assert(kv.contains(k));
        let m = choose|m: int| 0 <= m < kv.len() && kv[m] == k;
        assert(entries_view(es@)[m].key == kv[m]);
    }
    r
}

/// Reads an entity file's text: the document, and its `links` field as the
/// library models it (`None` when the document is not a mapping).
fn read_document(content: &str) -> (r: Result<(Value, Option<LinksField>), String>)
    ensures
        match r {
            Ok((doc, f)) => parsed_yaml(content@) == Ok::<Value, Seq<char>>(doc)
                && links_read_view(Ok(f)) == yaml_links(content@)
                && (f matches Some(x) ==> entries_found(doc, x@)),
            Err(m) => parsed_yaml(content@) == Err::<Value, Seq<char>>(m@),
        },
{
    let doc = parse_yaml(content)?;
    match keys_of(&doc) {
        None => Ok((doc, None)),
        Some(_) => {
            let f = links_field_from(&doc);
            Ok((doc, Some(f)))
        },
    }
}

/// Reads an entity file's text and takes its `links` field as the library
/// models it.
fn read_yaml_links(content: &str) -> (r: Result<Option<LinksField>, String>)
    ensures
        links_read_view(r) == yaml_links(content@),
{
    match read_document(content) {
        Ok((_, f)) => Ok(f),
        Err(m) => Err(m),
    }
}

/// The `links` field of an entity file's text, as `serde_yml` reads it
/// (`None` when the document is not a mapping).
pub fn links_in_yaml(content: &str) -> (r: Result<Option<LinksField>, String>)
    ensures
        links_read_view(r) == yaml_links(content@),
{
    read_yaml_links(content)
}

/// A kept item refers to an item of the list under `key` as read.
pub open spec fn kept_in_range(f: LinksFieldView, key: Seq<char>, i: int) -> bool {
    &&& f matches LinksFieldView::Mapping(es)
    &&& has_key(es, key)
    &&& es[first_key(es, key)].value matches LinkValueView::List(items)
    &&& 0 <= i < items.len()
}

/// The value can be written under `key`: the `links` field is a mapping or
/// absent, and every kept item refers to an item of the list as read.
pub open spec fn writable(f: LinksFieldView, key: Seq<char>, w: WrittenValueView) -> bool {
    &&& !(f is NotMapping)
    &&& (w matches WrittenValueView::List(xs) ==> forall|j: int| 0 <= j < xs.len() ==> (#[trigger] xs[j] matches ListItemView::Kept(i) ==> kept_in_range(f, key, i)))
}

/// A kept item of a writable value names an item of the list the document
/// holds under the link type.
proof fn lemma_kept_item_found(doc: Value, key: Seq<char>, i: int)
    requires
        entries_found(doc, links_field_of(yaml_entry(doc, "links"@))),
        kept_in_range(links_field_of(yaml_entry(doc, "links"@)), key, i),
    ensures
        prior_value(doc, key) matches Some(o) && yaml_items(o) matches Some(ys) && 0 <= i < ys.len(),
{
    let l = yaml_entry(doc, "links"@)->Some_0;
    let ks = yaml_keys(l)->Some_0;
    let es = link_entries_of(l, ks);
    let w = choose|w: int| 0 <= w < es.len() && es[w].key == key;
    lemma_exists_first_key(es, key, w);
    let c = first_key(es, key);
    assert(is_first_key(es, key, c));
    assert(prior_value(doc, es[c].key) is Some);
    assert(es[c].key == ks[c]);
}

/// The YAML value written for `w`, kept items copied from `prior`.
fn yaml_value_for(w: &WrittenValue, prior: &Option<Value>) -> (r: Value)
    requires
        w@ matches WrittenValueView::List(xs) ==> forall|j: int| 0 <= j < xs.len() ==> (#[trigger] xs[j] matches ListItemView::Kept(i)
            ==> *prior matches Some(o) && yaml_items(o) matches Some(ys) && 0 <= i < ys.len()),
    ensures
        r == written_yaml(w@, *prior),
        link_value_of(r) == written_model(prior_model(*prior), w@),
{
    match w {
        WrittenValue::Null => value_of_text(None),
        WrittenValue::Single(s) => value_of_text(Some(s.clone())),
        WrittenValue::List(items) => {
            let ghost xs = w@->List_0;
            let ghost f = |x: ListItemView| match x {
                ListItemView::Kept(i) => yaml_items(prior->Some_0)->Some_0[i],
                ListItemView::Added(s) => yaml_from_option(Some(s)),
            };
            let ghost olds = prior_model(*prior)->List_0;
            let mut vs: Vec<Value> = Vec::new();
            let mut j: usize = 0;
            while j < items.len()
                invariant
                    olds == prior_model(*prior)->List_0,
                    vs@.map_values(|y: Value| yaml_text(y)) == materialized(olds, xs.take(j as int)),
                    xs == items@.map_values(|x: ListItem| x@),
                    forall|m: int| 0 <= m < xs.len() ==> (#[trigger] xs[m] matches ListItemView::Kept(i)
                        ==> *prior matches Some(o) && yaml_items(o) matches Some(ys) && 0 <= i < ys.len()),
                    f == (|x: ListItemView| match x {
                        ListItemView::Kept(i) => yaml_items(prior->Some_0)->Some_0[i],
                        ListItemView::Added(s) => yaml_from_option(Some(s)),
                    }),
                    j <= items.len(),
                    vs@ == xs.take(j as int).map_values(f),
                decreases items.len() - j,
            {
                assert(xs[j as int] == items@[j as int]@);
                let v = match &items[j] {
                    ListItem::Kept(i) => match prior {
                        Some(o) => item_at(o, *i),
                        None => {
                            assert(false);
                            value_of_text(None)
                        },
                    },
                    ListItem::Added(s) => value_of_text(Some(s.clone())),
                };
                let ghost before = vs@;
                vs.push(v);
                assert(xs.take(j as int + 1) =~= xs.take(j as int).push(xs[j as int]));
                assert(xs.take(j as int + 1).map_values(f) =~= xs.take(j as int).map_values(f).push(f(xs[j as int])));
                assert(vs@ =~= before.push(v));
                assert(vs@.map_values(|y: Value| yaml_text(y)) =~= before.map_values(|y: Value| yaml_text(y)).push(yaml_text(v)));
                assert(materialized(olds, xs.take(j as int + 1)) =~= materialized(olds, xs.take(j as int)).push(
                    match xs[j as int] {
                        ListItemView::Kept(i) => olds[i],
                        ListItemView::Added(s) => Some(s),
                    },
                ));
                j = j + 1;
            }
            assert(xs.take(items.len() as int) =~= xs);
            sequence_of(vs)
        },
    }
}

/// Sets the value under `key` in the document's `links` mapping (creating
/// the mapping when absent) and writes the document.
fn write_link_value(doc: Value, key: &str, w: &WrittenValue) -> (r: Result<String, String>)
    requires
        yaml_keys(doc) is Some,
        entries_found(doc, links_field_of(yaml_entry(doc, "links"@))),
        writable(links_field_of(yaml_entry(doc, "links"@)), key@, w@),
    ensures
        text_result_view(r) == yaml_emitted(doc_with_link(doc, key@, written_yaml(w@, prior_value(doc, key@)))),
        link_written(doc_with_link(doc, key@, written_yaml(w@, prior_value(doc, key@))), key@)
            == Some(written_model(prior_model(prior_value(doc, key@)), w@)),
{
    proof {
        match w@ {
            WrittenValueView::List(xs) => {
                assert forall|j: int| 0 <= j < xs.len() implies (#[trigger] xs[j] matches ListItemView::Kept(i)
                    ==> prior_value(doc, key@) matches Some(o) && yaml_items(o) matches Some(ys) && 0 <= i < ys.len()) by {
                    match xs[j] {
                        ListItemView::Kept(i) => {
                            lemma_kept_item_found(doc, key@, i);
                        },
                        _ => {},
                    }
                }
            },
            _ => {},
        }
    }
    let links = entry_of(&doc, "links");
    let prior = match &links {
        Some(l) => entry_of(l, key),
        None => None,
    };
    let x = yaml_value_for(w, &prior);
    let mut doc = doc;
    match links {
        Some(l) => {
            let mut l = l;
            insert_entry(&mut l, key, x);
            insert_entry(&mut doc, "links", l);
        },
        None => {
            let m = mapping_of(key, x);
            insert_entry(&mut doc, "links", m);
        },
    }
    emit_yaml(&doc)
}

/// Why a link could not be written into an entity file.
#[derive(Debug, Clone)]
pub enum LinkFileError {
    /// The text could not be read or written as YAML; the message.
    Yaml(String),
    /// The document is not a mapping, so it has no place for links.
    NotADocumentMapping,
    /// The edit itself was refused.
    Edit(LinkEditError),
}

/// The value under `k` that an edit starts from: the value found, or the
/// value a new link type starts with.
pub open spec fn current_value(f: LinksFieldView, k: Seq<char>) -> LinkValueView {
    match f {
        LinksFieldView::Mapping(es) => if has_key(es, k) {
            es[first_key(es, k)].value
        } else {
            fresh_link_value(k)
        },
        _ => fresh_link_value(k),
    }
}

/// Every item of a list of `n` items, kept in place.
pub open spec fn all_kept(n: nat) -> Seq<ListItemView> {
    Seq::new(n, |i: int| ListItemView::Kept(i))
}

/// The value written under the link type when a link to `t` is added to the
/// value `v` (`None` when the value is neither a list nor a single value).
pub open spec fn written_after_add(v: LinkValueView, t: Seq<char>) -> Option<WrittenValueView> {
    match v {
        LinkValueView::List(items) => Some(WrittenValueView::List(
            if items.contains(Some(t)) {
                all_kept(items.len())
            } else {
                all_kept(items.len()).push(ListItemView::Added(t))
            },
        )),
        LinkValueView::Null => Some(WrittenValueView::Single(t)),
        LinkValueView::Single(_) => Some(WrittenValueView::Single(t)),
        LinkValueView::Other => None,
    }
}

/// The positions, kept in place, of the items that are not the text `t`.
pub open spec fn kept_positions(items: Seq<Option<Seq<char>>>, t: Seq<char>) -> Seq<ListItemView>
    decreases items.len(),
{
    if items.len() == 0 {
        seq![]
    } else {
        kept_positions(items.drop_last(), t) + if items.last() != Some(t) {
            seq![ListItemView::Kept(items.len() - 1)]
        } else {
            seq![]
        }
    }
}

/// The value written under the link type when the link to `t` is removed
/// from the value `v` (`None`: the value stays as it is).
pub open spec fn written_after_remove(v: LinkValueView, t: Seq<char>) -> Option<WrittenValueView> {
    match v {
        LinkValueView::List(items) => Some(WrittenValueView::List(kept_positions(items, t))),
        LinkValueView::Single(c) => if c == t {
            Some(WrittenValueView::Null)
        } else {
            None
        },
        _ => None,
    }
}

/// Every item of a list of `n` items, kept in place.
fn keep_all(n: usize) -> (r: Vec<ListItem>)
    ensures
        r@.map_values(|x: ListItem| x@) == all_kept(n as nat),
{
    let mut r: Vec<ListItem> = Vec::new();
    let mut i: usize = 0;
    while i < n
        invariant
            i <= n,
            r.len() == i,
            forall|j: int| 0 <= j < i ==> (#[trigger] r@[j])@ == ListItemView::Kept(j),
        decreases n - i,
    {
        r.push(ListItem::Kept(i));
        i = i + 1;
    }
    assert(r@.map_values(|x: ListItem| x@) =~= all_kept(n as nat));
    r
}

/// The positions, kept in place, of the items that are not the text `t`.
fn keep_others(items: &Vec<Option<String>>, t: &str) -> (r: Vec<ListItem>)
    ensures
        r@.map_values(|x: ListItem| x@) == kept_positions(list_view(items@), t@),
{
    let ghost iv = list_view(items@);
    let mut r: Vec<ListItem> = Vec::new();
    let mut i: usize = 0;
    assert(iv.take(0) =~= Seq::<Option<Seq<char>>>::empty());
    while i < items.len()
        invariant
            iv == list_view(items@),
            i <= items.len(),
            r@.map_values(|x: ListItem| x@) == kept_positions(iv.take(i as int), t@),
        decreases items.len() - i,
    {
        assert(iv.take(i as int + 1).drop_last() =~= iv.take(i as int));
        assert(iv.take(i as int + 1).last() == iv[i as int]);
        let ghost before = r@.map_values(|x: ListItem| x@);
        if !item_is(&items[i], t) {
            r.push(ListItem::Kept(i));
            assert(r@.map_values(|x: ListItem| x@) =~= before.push(ListItemView::Kept(i as int)));
        }
        assert(r@.map_values(|x: ListItem| x@) =~= kept_positions(iv.take(i as int + 1), t@));
        i = i + 1;
    }
    assert(iv.take(items.len() as int) =~= iv);
    r
}

/// Kept positions lie within the list.
proof fn lemma_kept_positions_in_range(items: Seq<Option<Seq<char>>>, t: Seq<char>)
    ensures
        forall|j: int| 0 <= j < kept_positions(items, t).len() ==>
            (#[trigger] kept_positions(items, t)[j] matches ListItemView::Kept(i) && 0 <= i < items.len()),
    decreases items.len(),
{
    if items.len() > 0 {
        lemma_kept_positions_in_range(items.drop_last(), t);
    }
}

/// The value written when adding a link to a file, before it is written.
fn value_for_add(value: &LinkValue, t: &str) -> (r: Option<WrittenValue>)
    ensures
        match r {
            Some(w) => written_after_add(value@, t@) == Some(w@),
            None => written_after_add(value@, t@) is None,
        },
{
    match value {
        LinkValue::List(items) => {
            let mut kept = keep_all(items.len());
            if !list_holds(items, t) {
                let ghost before = kept@.map_values(|x: ListItem| x@);
                kept.push(ListItem::Added(t.to_owned()));
                assert(kept@.map_values(|x: ListItem| x@) =~= before.push(ListItemView::Added(t@)));
            }
            Some(WrittenValue::List(kept))
        },
        LinkValue::Null => Some(WrittenValue::Single(t.to_owned())),
        LinkValue::Single(_) => Some(WrittenValue::Single(t.to_owned())),
        LinkValue::Other => None,
    }
}

/// The value a written list keeps items from is the value the edit started
/// from.
proof fn lemma_prior_is_current(doc: Value, k: Seq<char>, w: WrittenValueView)
    requires
        entries_found(doc, links_field_of(yaml_entry(doc, "links"@))),
        !(links_field_of(yaml_entry(doc, "links"@)) is NotMapping),
        w matches WrittenValueView::List(_) ==> current_value(links_field_of(yaml_entry(doc, "links"@)), k) matches LinkValueView::List(_),
    ensures
        written_model(prior_model(prior_value(doc, k)), w) == written_model(current_value(links_field_of(yaml_entry(doc, "links"@)), k), w),
{
    let f = links_field_of(yaml_entry(doc, "links"@));
    if w matches WrittenValueView::List(_) {
        match f {
            LinksFieldView::Mapping(es) => {
                let l = yaml_entry(doc, "links"@)->Some_0;
                let ks = yaml_keys(l)->Some_0;
                if has_key(es, k) {
                    let w0 = choose|w0: int| 0 <= w0 < es.len() && es[w0].key == k;
                    lemma_exists_first_key(es, k, w0);
                    let c = first_key(es, k);
                    assert(is_first_key(es, k, c));
                    assert(prior_value(doc, es[c].key) is Some);
                    assert(es[c].key == ks[c]);
                } else {
                    assert(prior_value(doc, k) is None);
                }
            },
            _ => {},
        }
    }
}

/// Adds a link of type `link_type` to `target_id` in the text of an entity
/// file, as [`add_link_entry`] does on its `links` field, and returns the
/// file's new text as `serde_yml` writes it.
pub fn add_link_to_yaml(content: &str, link_type: &str, target_id: &str) -> (r: Result<String, LinkFileError>)
    ensures
        match yaml_links(content@) {
            Err(m) => r matches Err(LinkFileError::Yaml(x)) && x@ == m,
            Ok(None) => r matches Err(LinkFileError::NotADocumentMapping),
            Ok(Some(f)) => match links_after_add(f, link_type@, target_id@) {
                Err(e) => r matches Err(LinkFileError::Edit(x)) && x == e,
                Ok(_) => match yaml_with_link(content@, link_type@, written_after_add(current_value(f, link_type@), target_id@).unwrap()) {
                    Ok(text) => r matches Ok(x) && x@ == text,
                    Err(m) => r matches Err(LinkFileError::Yaml(x)) && x@ == m,
                },
            },
        },
        r is Ok ==> ({
            let doc = parsed_yaml(content@)->Ok_0;
            let f = yaml_links(content@)->Ok_0->Some_0;
            let es = links_after_add(f, link_type@, target_id@)->Ok_0;
            let w = written_after_add(current_value(f, link_type@), target_id@)->Some_0;
            link_written(doc_with_link(doc, link_type@, written_yaml(w, prior_value(doc, link_type@))), link_type@)
                == Some(es[first_key(es, link_type@)].value)
        }),
{
    let (doc, f) = match read_document(content) {
        Err(m) => {
            return Err(LinkFileError::Yaml(m));
        },
        Ok((_, None)) => {
            return Err(LinkFileError::NotADocumentMapping);
        },
        Ok((doc, Some(f))) => (doc, f),
    };
    let ghost fv = f@;
    let fresh = if is_array_link_type(link_type) {
        let empty: Vec<Option<String>> = Vec::new();
        assert(list_view(empty@) =~= Seq::<Option<Seq<char>>>::empty());
        LinkValue::List(empty)
    } else {
        LinkValue::Null
    };
    assert(fresh@ == fresh_link_value(link_type@));
    let written = match &f {
        LinksField::NotMapping => {
            return Err(LinkFileError::Edit(LinkEditError::NotMapping));
        },
        LinksField::Absent => value_for_add(&fresh, target_id),
        LinksField::Mapping(es) => match find_key(es, link_type) {
            Some(i) => {
                assert(entries_view(es@)[i as int] == es@[i as int]@);
                value_for_add(&es[i].value, target_id)
            },
            None => value_for_add(&fresh, target_id),
        },
    };
    assert(written_after_add(current_value(fv, link_type@), target_id@) is Some <==> links_after_add(fv, link_type@, target_id@) is Ok);
    let w = match written {
        None => {
            return Err(LinkFileError::Edit(LinkEditError::UnexpectedFormat));
        },
        Some(w) => w,
    };
    proof {
        match w@ {
            WrittenValueView::List(xs) => {
                let items = match current_value(fv, link_type@) {
                    LinkValueView::List(items) => items,
                    _ => seq![],
                };
                assert forall|j: int| 0 <= j < xs.len() implies (#[trigger] xs[j] matches ListItemView::Kept(i) ==> kept_in_range(fv, link_type@, i)) by {
                    if xs[j] matches ListItemView::Kept(i) {
                        assert(j < items.len());
                    }
                }
            },
            _ => {},
        }
    }
    proof {
        lemma_prior_is_current(doc, link_type@, w@);
        law_file_edits_write_the_edited_value(fv, link_type@, target_id@);
    }
    match write_link_value(doc, link_type, &w) {
        Ok(text) => Ok(text),
        Err(m) => Err(LinkFileError::Yaml(m)),
    }
}

/// The outcome of an edit of an entity file's text, as the library models
/// it.
pub enum FileEditOutcome {
    /// The file's new text.
    Text(Seq<char>),
    /// The text could not be read or written as YAML; the message.
    YamlError(Seq<char>),
    /// The document is not a mapping.
    NotADocument,
    /// The edit itself was refused.
    Edit(LinkEditError),
}

/// An edit's result, taken by its model.
pub open spec fn file_edit_view(r: Result<String, LinkFileError>) -> FileEditOutcome {
    match r {
        Ok(s) => FileEditOutcome::Text(s@),
        Err(LinkFileError::Yaml(m)) => FileEditOutcome::YamlError(m@),
        Err(LinkFileError::NotADocumentMapping) => FileEditOutcome::NotADocument,
        Err(LinkFileError::Edit(e)) => FileEditOutcome::Edit(e),
    }
}

/// The outcome of removing the link of type `k` to `t` from the text of an
/// entity file: the edit of its `links` field decides, and the file is
/// written back by `serde_yml` (unchanged but for the rewrite when the
/// value stays as it was).
pub open spec fn text_after_remove(content: Seq<char>, k: Seq<char>, t: Seq<char>) -> FileEditOutcome {
    match yaml_links(content) {
        Err(m) => FileEditOutcome::YamlError(m),
        Ok(None) => FileEditOutcome::Edit(LinkEditError::NoLinksSection),
        Ok(Some(f)) => match links_after_remove(f, k, t) {
            Err(e) => FileEditOutcome::Edit(e),
            Ok(_) => match (match written_after_remove(current_value(f, k), t) {
                Some(w) => yaml_with_link(content, k, w),
                None => yaml_rewritten(content),
            }) {
                Ok(text) => FileEditOutcome::Text(text),
                Err(m) => FileEditOutcome::YamlError(m),
            },
        },
    }
}

/// Removes the link of type `link_type` to `target_id` from the text of an
/// entity file, as [`remove_link_entry`] does on its `links` field, and
/// returns the file's new text as `serde_yml` writes it.
pub fn remove_link_from_yaml(content: &str, link_type: &str, target_id: &str) -> (r: Result<String, LinkFileError>)
    ensures
        file_edit_view(r) == text_after_remove(content@, link_type@, target_id@),
        r is Ok ==> ({
            let doc = parsed_yaml(content@)->Ok_0;
            let f = yaml_links(content@)->Ok_0->Some_0;
            let es = links_after_remove(f, link_type@, target_id@)->Ok_0;
            let written = match written_after_remove(current_value(f, link_type@), target_id@) {
                Some(w) => doc_with_link(doc, link_type@, written_yaml(w, prior_value(doc, link_type@))),
                None => doc,
            };
            link_written(written, link_type@) == Some(es[first_key(es, link_type@)].value)
        }),
{
    let (doc, f) = match read_document(content) {
        Err(m) => {
            return Err(LinkFileError::Yaml(m));
        },
        Ok((_, None)) => {
            return Err(LinkFileError::Edit(LinkEditError::NoLinksSection));
        },
        Ok((doc, Some(f))) => (doc, f),
    };
    let ghost fv = f@;
    let es = match &f {
        LinksField::Absent => {
            return Err(LinkFileError::Edit(LinkEditError::NoLinksSection));
        },
        LinksField::NotMapping => {
            return Err(LinkFileError::Edit(LinkEditError::UnknownLinkType));
        },
        LinksField::Mapping(es) => es,
    };
    let i = match find_key(es, link_type) {
        None => {
            return Err(LinkFileError::Edit(LinkEditError::UnknownLinkType));
        },
        Some(i) => i,
    };
    assert(entries_view(es@)[i as int] == es@[i as int]@);
    let written = match &es[i].value {
        LinkValue::List(items) => {
            proof {
                lemma_kept_positions_in_range(list_view(items@), target_id@);
            }
            Some(WrittenValue::List(keep_others(items, target_id)))
        },
        LinkValue::Single(c) => if str_eq(c.as_str(), target_id) {
            Some(WrittenValue::Null)
        } else {
            None
        },
        _ => None,
    };
    proof {
        law_file_edits_write_the_edited_value(fv, link_type@, target_id@);
        assert(is_first_key(entries_view(es@), link_type@, i as int));
        assert(prior_value(doc, entries_view(es@)[i as int].key) is Some);
    }
    let out = match written {
        Some(w) => {
            proof {
                lemma_prior_is_current(doc, link_type@, w@);
            }
            write_link_value(doc, link_type, &w)
        },
        None => emit_yaml(&doc),
    };
    match out {
        Ok(text) => Ok(text),
        Err(m) => Err(LinkFileError::Yaml(m)),
    }
}

/// Writing the kept positions of the items other than `t` gives the list
/// without `t`.
proof fn lemma_materialized_kept(items: Seq<Option<Seq<char>>>, t: Seq<char>)
    ensures
        materialized(items, kept_positions(items, t)) == items.filter(|x: Option<Seq<char>>| x != Some(t)),
    decreases items.len(),
{
    reveal_with_fuel(Seq::filter, 1);
    if items.len() == 0 {
        assert(materialized(items, kept_positions(items, t)) =~= items.filter(|x: Option<Seq<char>>| x != Some(t)));
    } else {
        let p = items.drop_last();
        let kp = kept_positions(p, t);
        lemma_materialized_kept(p, t);
        lemma_kept_positions_in_range(p, t);
        assert(materialized(items, kp) =~= materialized(p, kp)) by {
            assert forall|j: int| 0 <= j < kp.len() implies #[trigger] materialized(items, kp)[j] == materialized(p, kp)[j] by {
                match kp[j] {
                    ListItemView::Kept(i) => {
                        assert(items[i] == p[i]);
                    },
                    _ => {},
                }
            }
        }
        let tail: Seq<ListItemView> = if items.last() != Some(t) {
            seq![ListItemView::Kept(items.len() - 1)]
        } else {
            seq![]
        };
        assert(kept_positions(items, t) == kp + tail);
        assert(materialized(items, kp + tail) =~= materialized(items, kp) + materialized(items, tail));
        if items.last() != Some(t) {
            assert(materialized(items, tail) =~= seq![items.last()]);
            assert(items.filter(|x: Option<Seq<char>>| x != Some(t)) == p.filter(|x: Option<Seq<char>>| x != Some(t)).push(items.last()));
            assert(materialized(items, kp + tail) =~= p.filter(|x: Option<Seq<char>>| x != Some(t)).push(items.last()));
        } else {
            assert(materialized(items, tail) =~= Seq::<Option<Seq<char>>>::empty());
            assert(items.filter(|x: Option<Seq<char>>| x != Some(t)) == p.filter(|x: Option<Seq<char>>| x != Some(t)));
            assert(materialized(items, kp + tail) =~= p.filter(|x: Option<Seq<char>>| x != Some(t)));
        }
    }
}

/// What a file edit writes under the link type is the value that the same
/// edit of the `links` field gives it: adding writes the value with the
/// target, removing writes the value without it or leaves the value as it
/// was.
pub proof fn law_file_edits_write_the_edited_value(f: LinksFieldView, k: Seq<char>, t: Seq<char>)
    ensures
        links_after_add(f, k, t) is Ok ==> ({
            let es = links_after_add(f, k, t)->Ok_0;
            written_model(current_value(f, k), written_after_add(current_value(f, k), t).unwrap()) == es[first_key(es, k)].value
        }),
        links_after_remove(f, k, t) is Ok ==> ({
            let es = links_after_remove(f, k, t)->Ok_0;
            match written_after_remove(current_value(f, k), t) {
                Some(w) => written_model(current_value(f, k), w) == es[first_key(es, k)].value,
                None => current_value(f, k) == es[first_key(es, k)].value,
            }
        }),
{
    let cur = current_value(f, k);
    if links_after_add(f, k, t) is Ok {
        let es1 = links_after_add(f, k, t)->Ok_0;
        let i = lemma_add_position(f, k, t);
        let es0 = match f {
            LinksFieldView::Mapping(es) => es,
            _ => Seq::<LinkEntryView>::empty(),
        };
        if has_key(es0, k) {
            let w = choose|w: int| 0 <= w < es0.len() && es0[w].key == k;
            lemma_exists_first_key(es0, k, w);
        }
        let es2 = if has_key(es0, k) {
            es0
        } else {
            es0.push(LinkEntryView { key: k, value: fresh_link_value(k) })
        };
        let i2 = if has_key(es0, k) {
            first_key(es0, k)
        } else {
            es0.len() as int
        };
        assert(es2[i2].value == cur);
        assert(es1 == es2.update(i2, LinkEntryView { key: k, value: value_with_target(cur, t).unwrap() }));
        assert(is_first_key(es1, k, i2));
        lemma_first_key_unique(es1, k, i2);
        assert(Some(es1[i].value) == value_with_target(cur, t));
        match cur {
            LinkValueView::List(items) => {
                assert(materialized(items, all_kept(items.len())) =~= items);
                if !items.contains(Some(t)) {
                    assert(materialized(items, all_kept(items.len()).push(ListItemView::Added(t))) =~= items.push(Some(t)));
                }
            },
            _ => {},
        }
    }
    if links_after_remove(f, k, t) is Ok {
        let es0 = match f {
            LinksFieldView::Mapping(es) => es,
            _ => Seq::<LinkEntryView>::empty(),
        };
        let i = first_key(es0, k);
        let w = choose|w: int| 0 <= w < es0.len() && es0[w].key == k;
        lemma_exists_first_key(es0, k, w);
        let es2 = links_after_remove(f, k, t)->Ok_0;
        assert(is_first_key(es2, k, i));
        lemma_first_key_unique(es2, k, i);
        match cur {
            LinkValueView::List(items) => {
                lemma_materialized_kept(items, t);
            },
            _ => {},
        }
    }
}

/// The text of a top-level field of an entity file (such as `id` or
/// `title`) as `serde_yml` reads the file: `None` when the text is not YAML,
/// or the field is absent or not text.
pub open spec fn yaml_text_field(content: Seq<char>, key: Seq<char>) -> Option<Seq<char>> {
    match parsed_yaml(content) {
        Ok(doc) => match yaml_entry(doc, key) {
            Some(v) => yaml_text(v),
            None => None,
        },
        Err(_) => None,
    }
}

/// Reads a top-level text field of an entity file.
fn read_text_field(content: &str, key: &str) -> (r: Option<String>)
    ensures
        opt_view(r) == yaml_text_field(content@, key@),
{
    let doc = match parse_yaml(content) {
        Ok(d) => d,
        Err(_) => {
            return None;
        },
    };
    match entry_of(&doc, key) {
        Some(v) => text_of(&v),
        None => None,
    }
}

/// The identifier an entity file declares and its title (`(untitled)` when
/// it has none); `None` when the file declares no identifier.
pub fn entity_id_and_title(content: &str) -> (r: Option<(String, String)>)
    ensures
        match yaml_text_field(content@, "id"@) {
            Some(id) => r matches Some((i, t)) && i@ == id && t@ == match yaml_text_field(content@, "title"@) {
                Some(x) => x,
                None => "(untitled)"@,
            },
            None => r is None,
        },
{
    let id = match read_text_field(content, "id") {
        Some(id) => id,
        None => {
            return None;
        },
    };
    let title = match read_text_field(content, "title") {
        Some(t) => t,
        None => "(untitled)".to_owned(),
    };
    Some((id, title))
}

/// The checks of every link target an entity file names, after the file's
/// identifier; `None` when the file is not YAML or declares no identifier.
pub fn file_link_checks(content: &str, all_ids: &[String]) -> (r: Option<(String, Vec<LinkCheck>)>)
    ensures
        match (yaml_text_field(content@, "id"@), yaml_links(content@)) {
            (Some(id), Ok(Some(f))) => r matches Some((i, cs)) && i@ == id
                && cs@.map_values(|c: LinkCheck| c@) == match f {
                    LinksFieldView::Mapping(es) => mapping_checks(es, all_ids@.map_values(|s: String| s@)),
                    _ => Seq::<LinkCheckView>::empty(),
                },
            _ => r is None,
        },
{
    let id = match read_text_field(content, "id") {
        Some(id) => id,
        None => {
            return None;
        },
    };
    match read_yaml_links(content) {
        Ok(Some(f)) => Some((id, check_links(&f, all_ids))),
        _ => None,
    }
}

/// The outcome of removing, one after another, the broken links among the
/// checks `cs` from the file as `start` leaves it; the first refused edit
/// stops the fix.
pub open spec fn broken_removed(start: FileEditOutcome, cs: Seq<LinkCheckView>) -> FileEditOutcome
    decreases cs.len(),
{
    if cs.len() == 0 {
        start
    } else {
        let prev = broken_removed(start, cs.drop_last());
        if cs.last().found {
            prev
        } else {
            match prev {
                FileEditOutcome::Text(t) => text_after_remove(t, cs.last().link_type, cs.last().target),
                other => other,
            }
        }
    }
}

/// Fixes an entity file's broken links by removing them (`link check
/// --fix`): the file's text with every link to an unknown target removed,
/// after the file's identifier; `None` when the file is not YAML or
/// declares no identifier.
pub fn fix_broken_links(content: &str, all_ids: &[String]) -> (r: Option<(String, Result<String, LinkFileError>)>)
    ensures
        match (yaml_text_field(content@, "id"@), yaml_links(content@)) {
            (Some(id), Ok(Some(f))) => r matches Some((i, x)) && i@ == id
                && file_edit_view(x) == broken_removed(FileEditOutcome::Text(content@), match f {
                    LinksFieldView::Mapping(es) => mapping_checks(es, all_ids@.map_values(|s: String| s@)),
                    _ => Seq::<LinkCheckView>::empty(),
                }),
            _ => r is None,
        },
{
    let (id, checks) = match file_link_checks(content, all_ids) {
        Some(x) => x,
        None => {
            return None;
        },
    };
    let ghost cs = checks@.map_values(|c: LinkCheck| c@);
    let mut text = content.to_owned();
    let mut i: usize = 0;
    assert(cs.take(0) =~= Seq::<LinkCheckView>::empty());
    while i < checks.len()
        invariant
            cs == checks@.map_values(|c: LinkCheck| c@),
            i <= checks.len(),
            broken_removed(FileEditOutcome::Text(content@), cs.take(i as int)) == FileEditOutcome::Text(text@),
            match (yaml_text_field(content@, "id"@), yaml_links(content@)) {
                (Some(v), Ok(Some(f))) => v == id@ && cs == match f {
                    LinksFieldView::Mapping(es) => mapping_checks(es, all_ids@.map_values(|s: String| s@)),
                    _ => Seq::<LinkCheckView>::empty(),
                },
                _ => false,
            },
        decreases checks.len() - i,
    {
        let c = &checks[i];
        assert(cs.take(i as int + 1).drop_last() =~= cs.take(i as int));
        assert(cs.take(i as int + 1).last() == c@);
        if !c.found {
            match remove_link_from_yaml(text.as_str(), c.link_type.as_str(), c.target.as_str()) {
                Ok(t) => {
                    text = t;
                },
                Err(e) => {
                    assert(broken_removed(FileEditOutcome::Text(content@), cs.take(i as int + 1)) == file_edit_view(Err::<String, LinkFileError>(e)));
                    proof {
                        lemma_broken_removed_stops(FileEditOutcome::Text(content@), cs, i as int + 1);
                    }
                    return Some((id, Err(e)));
                },
            }
        }
        i = i + 1;
    }
    assert(cs.take(checks.len() as int) =~= cs);
    Some((id, Ok(text)))
}

/// Once the fix is refused, the refusal stands through the later checks.
proof fn lemma_broken_removed_stops(start: FileEditOutcome, cs: Seq<LinkCheckView>, n: int)
    requires
        0 <= n <= cs.len(),
        !(broken_removed(start, cs.take(n)) is Text),
    ensures
        broken_removed(start, cs) == broken_removed(start, cs.take(n)),
    decreases cs.len() - n,
{
    if n < cs.len() {
        assert(cs.take(n + 1).drop_last() =~= cs.take(n));
        lemma_broken_removed_stops(start, cs, n + 1);
    } else {
        assert(cs.take(n) =~= cs);
    }
}

/// The link types under which an entity file links to `target_id`, once
/// per link, after the file's identifier (as written); `None` when the file
/// is not YAML or declares no identifier. An entity never links to itself.
pub fn file_incoming_links(content: &str, target_id: &str) -> (r: Option<(String, Vec<String>)>)
    ensures
        match (yaml_text_field(content@, "id"@), yaml_links(content@)) {
            (Some(id), Ok(Some(f))) => r matches Some((i, ts)) && i@ == id
                && ts@.map_values(|s: String| s@) == incoming_from(id, f, target_id@),
            _ => r is None,
        },
{
    let id = match read_text_field(content, "id") {
        Some(id) => id,
        None => {
            return None;
        },
    };
    match read_yaml_links(content) {
        Ok(Some(f)) => {
            let types = incoming_link_types(id.as_str(), &f, target_id);
            Some((id, types))
        },
        _ => None,
    }
}

/// The link types under which one entry names `t`, once per occurrence.
pub open spec fn entry_hits(e: LinkEntryView, t: Seq<char>) -> Seq<Seq<char>> {
    match e.value {
        LinkValueView::List(items) => items.filter(|x: Option<Seq<char>>| x == Some(t)).map_values(|x: Option<Seq<char>>| e.key),
        LinkValueView::Single(s) => if s == t {
            seq![e.key]
        } else {
            seq![]
        },
        _ => seq![],
    }
}

/// The link types, in file order and once per occurrence, under which a
/// `links` mapping names `t`.
pub open spec fn incoming_types(es: Seq<LinkEntryView>, t: Seq<char>) -> Seq<Seq<char>>
    decreases es.len(),
{
    if es.len() == 0 {
        seq![]
    } else {
        incoming_types(es.drop_last(), t) + entry_hits(es.last(), t)
    }
}

/// The link types an entity uses to point at `target`; an entity never
/// counts as linking to itself.
pub open spec fn incoming_from(source: Seq<char>, f: LinksFieldView, target: Seq<char>) -> Seq<Seq<char>> {
    if source == target {
        seq![]
    } else {
        match f {
            LinksFieldView::Mapping(es) => incoming_types(es, target),
            _ => seq![],
        }
    }
}

/// The link types under which the entity `source_id` links to `target_id`,
/// one per link (used to list the incoming links of an entity).
pub fn incoming_link_types(source_id: &str, links: &LinksField, target_id: &str) -> (r: Vec<String>)
    ensures
        r@.map_values(|s: String| s@) == incoming_from(source_id@, links@, target_id@),
{
    let mut r: Vec<String> = Vec::new();
    if str_eq(source_id, target_id) {
        assert(r@.map_values(|s: String| s@) =~= Seq::<Seq<char>>::empty());
        return r;
    }
    let es = match links {
        LinksField::Mapping(es) => es,
        _ => {
            assert(r@.map_values(|s: String| s@) =~= Seq::<Seq<char>>::empty());
            return r;
        },
    };
    let ghost ev = entries_view(es@);
    let mut i: usize = 0;
    assert(r@.map_values(|s: String| s@) =~= incoming_types(ev.take(0), target_id@));
    while i < es.len()
        invariant
            ev == entries_view(es@),
            i <= es.len(),
            r@.map_values(|s: String| s@) == incoming_types(ev.take(i as int), target_id@),
        decreases es.len() - i,
    {
        let ghost before = r@.map_values(|s: String| s@);
        let e = &es[i];
        assert(ev.take(i as int + 1).drop_last() =~= ev.take(i as int));
        assert(ev.take(i as int + 1).last() == e@);
        match &e.value {
            LinkValue::List(items) => {
                let ghost iv = list_view(items@);
                let ghost tv = Some(target_id@);
                let mut j: usize = 0;
                assert(iv.take(0).filter(|x: Option<Seq<char>>| x == tv) =~= Seq::<Option<Seq<char>>>::empty());
                assert(r@.map_values(|s: String| s@) =~= before + iv.take(0).filter(|x: Option<Seq<char>>| x == tv).map_values(|x: Option<Seq<char>>| e.key@));
                while j < items.len()
                    invariant
                        iv == list_view(items@),
                        tv == Some(target_id@),
                        j <= items.len(),
                        r@.map_values(|s: String| s@) == before + iv.take(j as int).filter(|x: Option<Seq<char>>| x == tv).map_values(|x: Option<Seq<char>>| e.key@),
                    decreases items.len() - j,
                {
                    reveal_with_fuel(Seq::filter, 1);
                    assert(iv.take(j as int + 1).drop_last() =~= iv.take(j as int));
                    let ghost part = iv.take(j as int).filter(|x: Option<Seq<char>>| x == tv);
                    assert(iv.take(j as int + 1).last() == iv[j as int]);
                    if item_is(&items[j], target_id) {
                        let k = e.key.clone();
                        let ghost old_r = r@;
                        r.push(k);
                        assert(r@.map_values(|s: String| s@) =~= old_r.map_values(|s: String| s@).push(e.key@));
                        assert(iv.take(j as int + 1).filter(|x: Option<Seq<char>>| x == tv) == part.push(iv[j as int]));
                        assert(part.push(iv[j as int]).map_values(|x: Option<Seq<char>>| e.key@) =~= part.map_values(|x: Option<Seq<char>>| e.key@).push(e.key@));
                    } else {
                        assert(iv.take(j as int + 1).filter(|x: Option<Seq<char>>| x == tv) == part);
                    }
                    assert(r@.map_values(|s: String| s@) =~= before + iv.take(j as int + 1).filter(|x: Option<Seq<char>>| x == tv).map_values(|x: Option<Seq<char>>| e.key@));
                    j = j + 1;
                }
                assert(iv.take(items.len() as int) =~= iv);
            },
            LinkValue::Single(s) => {
                if str_eq(s.as_str(), target_id) {
                    r.push(e.key.clone());
                }
            },
            _ => {},
        }
        assert(r@.map_values(|s: String| s@) =~= incoming_types(ev.take(i as int + 1), target_id@));
        i = i + 1;
    }
    assert(ev.take(es.len() as int) =~= ev);
    r
}

/// The outcome of checking one link target.
#[derive(Debug, Clone)]
pub struct LinkCheck {
    /// The link type the target is listed under.
    pub link_type: String,
    /// The target identifier.
    pub target: String,
    /// Whether some known entity has that identifier (or starts with it).
    pub found: bool,
}

/// Mathematical form of a [`LinkCheck`].
pub struct LinkCheckView {
    pub link_type: Seq<char>,
    pub target: Seq<char>,
    pub found: bool,
}

impl View for LinkCheck {
    type V = LinkCheckView;

    open spec fn view(&self) -> LinkCheckView {
        LinkCheckView { link_type: self.link_type@, target: self.target@, found: self.found }
    }
}

/// The checks of one entry: one per target it names.
pub open spec fn entry_checks(e: LinkEntryView, ids: Seq<Seq<char>>) -> Seq<LinkCheckView> {
    link_targets(e.value).map_values(|x: Seq<char>| LinkCheckView { link_type: e.key, target: x, found: id_known(ids, x) })
}

/// The checks of every link target of a mapping, in file order.
pub open spec fn mapping_checks(es: Seq<LinkEntryView>, ids: Seq<Seq<char>>) -> Seq<LinkCheckView>
    decreases es.len(),
{
    if es.len() == 0 {
        seq![]
    } else {
        mapping_checks(es.drop_last(), ids) + entry_checks(es.last(), ids)
    }
}

/// Checks every link target of an entity against the known identifiers; a
/// target whose check is not `found` is a broken link.
pub fn check_links(links: &LinksField, all_ids: &[String]) -> (r: Vec<LinkCheck>)
    ensures
        r@.map_values(|c: LinkCheck| c@) == match links@ {
            LinksFieldView::Mapping(es) => mapping_checks(es, all_ids@.map_values(|s: String| s@)),
            _ => Seq::<LinkCheckView>::empty(),
        },
{
    let ghost ids = all_ids@.map_values(|s: String| s@);
    let mut r: Vec<LinkCheck> = Vec::new();
    let es = match links {
        LinksField::Mapping(es) => es,
        _ => {
            assert(r@.map_values(|c: LinkCheck| c@) =~= Seq::<LinkCheckView>::empty());
            return r;
        },
    };
    let ghost ev = entries_view(es@);
    let mut i: usize = 0;
    assert(r@.map_values(|c: LinkCheck| c@) =~= mapping_checks(ev.take(0), ids));
    while i < es.len()
        invariant
            ev == entries_view(es@),
            ids == all_ids@.map_values(|s: String| s@),
            i <= es.len(),
            r@.map_values(|c: LinkCheck| c@) == mapping_checks(ev.take(i as int), ids),
        decreases es.len() - i,
    {
        let ghost before = r@.map_values(|c: LinkCheck| c@);
        let e = &es[i];
        assert(ev.take(i as int + 1).drop_last() =~= ev.take(i as int));
        assert(ev.take(i as int + 1).last() == e@);
        match &e.value {
            LinkValue::List(items) => {
                let ghost iv = list_view(items@);
                let mut j: usize = 0;
                assert(r@.map_values(|c: LinkCheck| c@) =~= before + item_texts(iv.take(0)).map_values(|x: Seq<char>| LinkCheckView { link_type: e.key@, target: x, found: id_known(ids, x) }));
                while j < items.len()
                    invariant
                        iv == list_view(items@),
                        ids == all_ids@.map_values(|s: String| s@),
                        j <= items.len(),
                        r@.map_values(|c: LinkCheck| c@) == before + item_texts(iv.take(j as int)).map_values(|x: Seq<char>| LinkCheckView { link_type: e.key@, target: x, found: id_known(ids, x) }),
                    decreases items.len() - j,
                {
                    assert(iv.take(j as int + 1).drop_last() =~= iv.take(j as int));
                    assert(iv.take(j as int + 1).last() == iv[j as int]);
                    let ghost texts = item_texts(iv.take(j as int));
                    match &items[j] {
                        Some(x) => {
                            let found = entity_exists(all_ids, x.as_str());
                            let ghost old_r = r@;
                            let c = LinkCheck { link_type: e.key.clone(), target: x.clone(), found };
                            r.push(c);
                            assert(r@.map_values(|c: LinkCheck| c@) =~= old_r.map_values(|c: LinkCheck| c@).push(c@));
                            assert(item_texts(iv.take(j as int + 1)) =~= texts.push(x@));
                        },
                        None => {
                            assert(item_texts(iv.take(j as int + 1)) =~= texts);
                        },
                    }
                    assert(r@.map_values(|c: LinkCheck| c@) =~= before + item_texts(iv.take(j as int + 1)).map_values(|x: Seq<char>| LinkCheckView { link_type: e.key@, target: x, found: id_known(ids, x) }));
                    j = j + 1;
                }
                assert(iv.take(items.len() as int) =~= iv);
            },
            LinkValue::Single(s) => {
                let found = entity_exists(all_ids, s.as_str());
                r.push(LinkCheck { link_type: e.key.clone(), target: s.clone(), found });
            },
            _ => {},
        }
        assert(r@.map_values(|c: LinkCheck| c@) =~= mapping_checks(ev.take(i as int + 1), ids));
        i = i + 1;
    }
    assert(ev.take(es.len() as int) =~= ev);
    r
}

proof fn lemma_first_key_unique(es: Seq<LinkEntryView>, k: Seq<char>, i: int)
    requires
        is_first_key(es, k, i),
    ensures
        has_key(es, k),
        first_key(es, k) == i,
{
    let c = first_key(es, k);
    assert(is_first_key(es, k, c));
    if c < i {
    } else if c > i {
        assert(es[i].key == k);
    }
}

/// Where an accepted link addition put the link: the position of the link
/// type in the new mapping, and the untouched entries before it.
proof fn lemma_add_position(f: LinksFieldView, k: Seq<char>, t: Seq<char>) -> (i: int)
    requires
        links_after_add(f, k, t) is Ok,
    ensures
        is_first_key(links_after_add(f, k, t)->Ok_0, k, i),
        first_key(links_after_add(f, k, t)->Ok_0, k) == i,
        value_with_target(links_after_add(f, k, t)->Ok_0[i].value, t) == Some(links_after_add(f, k, t)->Ok_0[i].value),
        link_targets(links_after_add(f, k, t)->Ok_0[i].value).contains(t),
{
    let es = match f {
        LinksFieldView::Absent => Seq::<LinkEntryView>::empty(),
        LinksFieldView::Mapping(es) => es,
        LinksFieldView::NotMapping => Seq::<LinkEntryView>::empty(),
    };
    let es1 = links_after_add(f, k, t)->Ok_0;
    let i = if has_key(es, k) {
        first_key(es, k)
    } else {
        es.len() as int
    };
    if has_key(es, k) {
        let w = choose|w: int| 0 <= w < es.len() && es[w].key == k;
        assert(exists|m: int| is_first_key(es, k, m)) by {
            lemma_exists_first_key(es, k, w);
        }
    }
    assert(is_first_key(es1, k, i));
    lemma_first_key_unique(es1, k, i);
    let es2 = if has_key(es, k) {
        es
    } else {
        es.push(LinkEntryView { key: k, value: fresh_link_value(k) })
    };
    let v = es1[i].value;
    assert(value_with_target(es2[i].value, t) == Some(v));
    match v {
        LinkValueView::List(items) => {
            match es2[i].value {
                LinkValueView::List(o) => {
                    if !o.contains(Some(t)) {
                        assert(items == o.push(Some(t)));
                        assert(items[items.len() - 1] == Some(t));
                    }
                },
                _ => {},
            }
            assert(items.contains(Some(t)));
            lemma_item_texts_contains(items, t);
        },
        LinkValueView::Single(s) => {
            assert(s == t);
            assert(seq![s][0] == t);
        },
        _ => {},
    }
    i
}

/// A list names a text exactly when one of its items is that text.
proof fn lemma_item_texts_contains(items: Seq<Option<Seq<char>>>, t: Seq<char>)
    ensures
        item_texts(items).contains(t) <==> items.contains(Some(t)),
    decreases items.len(),
{
    if items.len() > 0 {
        let p = items.drop_last();
        lemma_item_texts_contains(p, t);
        let tail: Seq<Seq<char>> = match items.last() {
            Some(x) => seq![x],
            None => seq![],
        };
        let all = item_texts(p) + tail;
        assert(all == item_texts(items));
        if all.contains(t) {
            let i = choose|i: int| 0 <= i < all.len() && all[i] == t;
            if i < item_texts(p).len() {
                assert(item_texts(p)[i] == t);
                let j = choose|j: int| 0 <= j < p.len() && p[j] == Some(t);
                assert(items[j] == Some(t));
            } else {
                assert(tail[i - item_texts(p).len()] == t);
                assert(items[items.len() - 1] == Some(t));
            }
        }
        if items.contains(Some(t)) {
            let j = choose|j: int| 0 <= j < items.len() && items[j] == Some(t);
            if j < items.len() - 1 {
                assert(p[j] == Some(t));
                let i = choose|i: int| 0 <= i < item_texts(p).len() && item_texts(p)[i] == t;
                assert(all[i] == t);
            } else {
                assert(all[item_texts(p).len() as int] == t);
            }
        }
    }
}

proof fn lemma_exists_first_key(es: Seq<LinkEntryView>, k: Seq<char>, w: int)
    requires
        0 <= w < es.len(),
        es[w].key == k,
    ensures
        exists|m: int| is_first_key(es, k, m),
    decreases w,
{
    if exists|j: int| 0 <= j < w && es[j].key == k {
        let j = choose|j: int| 0 <= j < w && es[j].key == k;
        lemma_exists_first_key(es, k, j);
    } else {
        assert(is_first_key(es, k, w));
    }
}

/// Adding the same link twice leaves the entity as adding it once does.
pub proof fn law_add_link_idempotent(f: LinksFieldView, k: Seq<char>, t: Seq<char>)
    requires
        links_after_add(f, k, t) is Ok,
    ensures
        links_after_add(LinksFieldView::Mapping(links_after_add(f, k, t)->Ok_0), k, t) == links_after_add(f, k, t),
{
    let es1 = links_after_add(f, k, t)->Ok_0;
    let i = lemma_add_position(f, k, t);
    let again = links_after_add(LinksFieldView::Mapping(es1), k, t);
    assert(again == Ok::<Seq<LinkEntryView>, LinkEditError>(es1.update(i, LinkEntryView { key: k, value: es1[i].value })));
    assert(es1.update(i, LinkEntryView { key: k, value: es1[i].value }) =~= es1);
}

/// After a link is added, the entity holds a link of that type naming the target.
pub proof fn law_link_present_after_add(f: LinksFieldView, k: Seq<char>, t: Seq<char>)
    requires
        links_after_add(f, k, t) is Ok,
    ensures
        has_key(links_after_add(f, k, t)->Ok_0, k),
        link_targets(links_after_add(f, k, t)->Ok_0[first_key(links_after_add(f, k, t)->Ok_0, k)].value).contains(t),
{
    lemma_add_position(f, k, t);
}

/// Removing a link right after adding it succeeds, and the link type then no
/// longer names the target.
pub proof fn law_remove_after_add(f: LinksFieldView, k: Seq<char>, t: Seq<char>)
    requires
        links_after_add(f, k, t) is Ok,
    ensures
        links_after_remove(LinksFieldView::Mapping(links_after_add(f, k, t)->Ok_0), k, t) is Ok,
        ({
            let es2 = links_after_remove(LinksFieldView::Mapping(links_after_add(f, k, t)->Ok_0), k, t)->Ok_0;
            has_key(es2, k) && !link_targets(es2[first_key(es2, k)].value).contains(t)
        }),
{
    let es1 = links_after_add(f, k, t)->Ok_0;
    let i = lemma_add_position(f, k, t);
    let es2 = links_after_remove(LinksFieldView::Mapping(es1), k, t)->Ok_0;
    let nv = value_without_target(es1[i].value, t);
    assert(es2 == es1.update(i, LinkEntryView { key: k, value: nv }));
    assert(is_first_key(es2, k, i));
    lemma_first_key_unique(es2, k, i);
    match es1[i].value {
        LinkValueView::List(items) => {
            let kept = items.filter(|x: Option<Seq<char>>| x != Some(t));
            if kept.contains(Some(t)) {
                let m = choose|m: int| 0 <= m < kept.len() && kept[m] == Some(t);
                items.lemma_filter_pred(|x: Option<Seq<char>>| x != Some(t), m);
            }
            lemma_item_texts_contains(kept, t);
        },
        _ => {},
    }
}

/// A list without the text `t` keeps every item when `t` is filtered out.
proof fn lemma_filter_keeps_all(items: Seq<Option<Seq<char>>>, t: Seq<char>)
    requires
        !items.contains(Some(t)),
    ensures
        items.filter(|x: Option<Seq<char>>| x != Some(t)) == items,
    decreases items.len(),
{
    reveal_with_fuel(Seq::filter, 1);
    if items.len() > 0 {
        let rest = items.drop_last();
        assert forall|j: int| 0 <= j < rest.len() implies rest[j] != Some(t) by {
            assert(items[j] == rest[j]);
        }
        assert(!items.contains(Some(t)) ==> items.last() != Some(t));
        lemma_filter_keeps_all(rest, t);
        assert(rest.push(items.last()) =~= items);
    }
}

/// Removing a link just added to a list that did not hold the target gives
/// back the `links` mapping as it was.
pub proof fn law_remove_undoes_add(es: Seq<LinkEntryView>, k: Seq<char>, t: Seq<char>)
    requires
        has_key(es, k),
        es[first_key(es, k)].value matches LinkValueView::List(items) && !items.contains(Some(t)),
    ensures
        links_after_add(LinksFieldView::Mapping(es), k, t) is Ok,
        links_after_remove(LinksFieldView::Mapping(links_after_add(LinksFieldView::Mapping(es), k, t)->Ok_0), k, t) == Ok::<Seq<LinkEntryView>, LinkEditError>(es),
{
    let w = choose|w: int| 0 <= w < es.len() && es[w].key == k;
    lemma_exists_first_key(es, k, w);
    let i = first_key(es, k);
    assert(is_first_key(es, k, i));
    let items = es[i].value->List_0;
    let es1 = links_after_add(LinksFieldView::Mapping(es), k, t)->Ok_0;
    assert(es1 == es.update(i, LinkEntryView { key: k, value: LinkValueView::List(items.push(Some(t))) }));
    assert(is_first_key(es1, k, i));
    lemma_first_key_unique(es1, k, i);
    reveal_with_fuel(Seq::filter, 1);
    assert(items.push(Some(t)).drop_last() =~= items);
    lemma_filter_keeps_all(items, t);
    assert(items.push(Some(t)).filter(|x: Option<Seq<char>>| x != Some(t)) == items);
    let es2 = links_after_remove(LinksFieldView::Mapping(es1), k, t)->Ok_0;
    assert(es2 =~= es);
}

/// An identifier is selected by a query that it equals or starts with.
pub open spec fn id_matches_query(id: Seq<char>, q: Seq<char>) -> bool {
    text_starts_with(id, q) || id == q
}

/// Positions, in order, of the identifiers that a query selects.
pub open spec fn matching_positions(ids: Seq<Seq<char>>, q: Seq<char>) -> Seq<int> {
    Seq::new(ids.len(), |i: int| i).filter(|i: int| id_matches_query(ids[i], q))
}

/// Why a query did not resolve to one entity.
#[derive(Debug, Clone, PartialEq, Eq)]
pub enum FindError {
    /// No identifier matches.
    NotFound,
    /// Several identifiers match; their positions, in order.
    Ambiguous(Vec<usize>),
}

/// Resolves a query against the identifiers of the entities found: exactly
/// one match is the answer; none or several are errors.
pub fn find_entity_match(ids: &[String], query: &str) -> (r: Result<usize, FindError>)
    ensures
        ({
            let m = matching_positions(ids@.map_values(|s: String| s@), query@);
            &&& r matches Ok(i) ==> m == seq![i as int]
            &&& r matches Err(FindError::NotFound) ==> m.len() == 0
            &&& r matches Err(FindError::Ambiguous(v)) ==> m.len() > 1 && v@.map_values(|x: usize| x as int) == m
            &&& (m.len() == 0 <==> r matches Err(FindError::NotFound))
            &&& (m.len() == 1 <==> r is Ok)
        }),
{
    let ghost iv = ids@.map_values(|s: String| s@);
    let ghost all = Seq::new(ids@.len(), |i: int| i);
    let mut found: Vec<usize> = Vec::new();
    let mut i: usize = 0;
    assert(all.take(0).filter(|i: int| id_matches_query(iv[i], query@)) =~= Seq::<int>::empty());
    while i < ids.len()
        invariant
            iv == ids@.map_values(|s: String| s@),
            all == Seq::new(ids@.len(), |i: int| i),
            i <= ids.len(),
            found@.map_values(|x: usize| x as int) == all.take(i as int).filter(|i: int| id_matches_query(iv[i], query@)),
        decreases ids.len() - i,
    {
        reveal_with_fuel(Seq::filter, 1);
        assert(all.take(i as int + 1).drop_last() =~= all.take(i as int));
        assert(all.take(i as int + 1).last() == i as int);
        let ghost old_found = found@;
        let id = ids[i].as_str();
        assert(iv[i as int] == id@);
        if str_starts_with(id, query) || str_eq(id, query) {
            found.push(i);
            assert(found@.map_values(|x: usize| x as int) =~= old_found.map_values(|x: usize| x as int).push(i as int));
        }
        i = i + 1;
    }
    assert(all.take(ids.len() as int) =~= all);
    let ghost m = matching_positions(iv, query@);
    if found.len() == 0 {
        Err(FindError::NotFound)
    } else if found.len() == 1 {
        assert(m =~= seq![found@[0] as int]);
        Ok(found[0])
    } else {
        Err(FindError::Ambiguous(found))
    }
}

/// Subcommands of `link`.
pub enum LinkCommands {
    /// Add a link between two entities.
    Add(AddLinkArgs),
    /// Remove a link between two entities.
    Remove(RemoveLinkArgs),
    /// Show all links of an entity.
    Show(ShowLinksArgs),
    /// Find links to entities that do not exist.
    Check(CheckLinksArgs),
}

/// Arguments of `link add`.
pub struct AddLinkArgs {
    /// Source entity identifier (or partial or short identifier).
    pub source: String,
    /// Target entity identifier (or partial or short identifier).
    pub target: String,
    /// Link type given as a positional argument.
    pub link_type_pos: Option<String>,
    /// Link type given with `--link-type`.
    pub link_type_flag: Option<String>,
    /// Add the reciprocal link (on by default).
    pub reciprocal: bool,
    /// Skip the reciprocal link.
    pub no_reciprocal: bool,
}

/// Arguments of `link remove`.
pub struct RemoveLinkArgs {
    /// Source entity identifier.
    pub source: String,
    /// Target entity identifier.
    pub target: String,
    /// Link type given as a positional argument.
    pub link_type_pos: Option<String>,
    /// Link type given with `--link-type`.
    pub link_type_flag: Option<String>,
    /// Remove the reciprocal link too.
    pub reciprocal: bool,
}

/// Arguments of `link show`.
pub struct ShowLinksArgs {
    /// Entity identifier.
    pub id: String,
    /// Show outgoing links only.
    pub outgoing: bool,
    /// Show incoming links only.
    pub incoming: bool,
}

/// Arguments of `link check`.
pub struct CheckLinksArgs {
    /// Remove broken links.
    pub fix: bool,
}

/// Why no link type could be settled.
#[derive(Debug, Clone, Copy, PartialEq, Eq, Structural)]
pub enum LinkTypeError {
    /// No link type was given and none follows from the two entity kinds.
    CannotInfer,
    /// Removing a link needs its type.
    Required,
}

/// The link type an addition uses, lower-cased, and whether it was inferred.
pub open spec fn add_link_type(pos: Option<Seq<char>>, flag: Option<Seq<char>>, s: EntityPrefix, t: EntityPrefix) -> Result<(Seq<char>, bool), LinkTypeError> {
    match pos {
        Some(lt) => Ok((lowercase(lt), false)),
        None => match flag {
            Some(lt) => Ok((lowercase(lt), false)),
            None => match inferred_link_type(s, t) {
                Some(lt) => Ok((lowercase(lt), true)),
                None => Err(LinkTypeError::CannotInfer),
            },
        },
    }
}


/// Settles the link type of `link add`: the positional argument, else the
/// flag, else the type inferred from the entity kinds; lower-cased.
pub fn resolve_add_link_type(args: &AddLinkArgs, source: EntityPrefix, target: EntityPrefix) -> (r: Result<(String, bool), LinkTypeError>)
    ensures
        r matches Ok((lt, inferred)) ==> add_link_type(opt_view(args.link_type_pos), opt_view(args.link_type_flag), source, target) == Ok::<(Seq<char>, bool), LinkTypeError>((lt@, inferred)),
        r matches Err(e) ==> add_link_type(opt_view(args.link_type_pos), opt_view(args.link_type_flag), source, target) == Err::<(Seq<char>, bool), LinkTypeError>(e),
{
    match &args.link_type_pos {
        Some(lt) => Ok((to_lowercase(lt.as_str()), false)),
        None => match &args.link_type_flag {
            Some(lt) => Ok((to_lowercase(lt.as_str()), false)),
            None => match infer_link_type(source, target) {
                Some(lt) => Ok((to_lowercase(lt.as_str()), true)),
                None => Err(LinkTypeError::CannotInfer),
            },
        },
    }
}

/// Settles the link type of `link remove`: the positional argument, else
/// the flag, lower-cased; one of them is required.
pub fn resolve_remove_link_type(args: &RemoveLinkArgs) -> (r: Result<String, LinkTypeError>)
    ensures
        r matches Ok(lt) ==> (match opt_view(args.link_type_pos) {
            Some(x) => lt@ == lowercase(x),
            None => opt_view(args.link_type_flag) matches Some(y) && lt@ == lowercase(y),
        }),
        r is Err <==> args.link_type_pos is None && args.link_type_flag is None,
        r matches Err(e) ==> e == LinkTypeError::Required,
{
    match &args.link_type_pos {
        Some(lt) => Ok(to_lowercase(lt.as_str())),
        None => match &args.link_type_flag {
            Some(lt) => Ok(to_lowercase(lt.as_str())),
            None => Err(LinkTypeError::Required),
        },
    }
}

/// Whether `link add` also writes the reciprocal link.
pub fn wants_reciprocal(args: &AddLinkArgs) -> (r: bool)
    ensures
        r == (args.reciprocal && !args.no_reciprocal),
{
    args.reciprocal && !args.no_reciprocal
}


/// The lines `link check` prints for the broken links of one entity, in
/// order: each broken link, followed by what a fix would do when one is
/// asked for.
pub open spec fn broken_lines(source: Seq<char>, cs: Seq<LinkCheckView>, fix: bool) -> Seq<Seq<char>>
    decreases cs.len(),
{
    if cs.len() == 0 {
        seq![]
    } else {
        broken_lines(source, cs.drop_last(), fix) + if cs.last().found {
            Seq::<Seq<char>>::empty()
        } else {
            seq!["\u{2717} "@ + short_id_form(source) + " \u{2192} "@ + short_id_form(cs.last().target) + " ("@ + cs.last().link_type
                + ") - target not found"@] + if fix {
                seq!["  fix: Would remove broken link"@]
            } else {
                Seq::<Seq<char>>::empty()
            }
        }
    }
}

/// An identifier longer than 16 bytes can be cut after its 13th byte.
pub open spec fn id_cuts_cleanly(id: Seq<char>) -> bool {
    byte_len(id) > 16 ==> is_byte_boundary(id, 13)
}

/// Writes the lines `link check` prints for the broken links of the entity
/// `source`.
pub fn broken_link_lines(source: &str, checks: &Vec<LinkCheck>, fix: bool) -> (r: Vec<String>)
    requires
        id_cuts_cleanly(source@),
        forall|i: int| 0 <= i < checks.len() ==> id_cuts_cleanly((#[trigger] checks@[i]).target@),
    ensures
        r@.map_values(|s: String| s@) == broken_lines(source@, checks@.map_values(|c: LinkCheck| c@), fix),
{
    let ghost cs = checks@.map_values(|c: LinkCheck| c@);
    let mut out: Vec<String> = Vec::new();
    let mut i: usize = 0;
    while i < checks.len()
        invariant
            cs == checks@.map_values(|c: LinkCheck| c@),
            i <= checks.len(),
            id_cuts_cleanly(source@),
            forall|k: int| 0 <= k < checks.len() ==> id_cuts_cleanly((#[trigger] checks@[k]).target@),
            out@.map_values(|s: String| s@) == broken_lines(source@, cs.take(i as int), fix),
        decreases checks.len() - i,
    {
        let c = &checks[i];
        assert(cs.take(i as int + 1).drop_last() =~= cs.take(i as int));
        assert(cs.take(i as int + 1).last() == c@);
        if !c.found {
            let ghost before = out@.map_values(|s: String| s@);
            let mut line = concat_texts("\u{2717} ", truncate_id(source).as_str());
            append_text(&mut line, " \u{2192} ");
            append_text(&mut line, truncate_id(c.target.as_str()).as_str());
            append_text(&mut line, " (");
            append_text(&mut line, c.link_type.as_str());
            append_text(&mut line, ") - target not found");
            out.push(line);
            if fix {
                out.push("  fix: Would remove broken link".to_owned());
            }
            assert(out@.map_values(|s: String| s@) =~= broken_lines(source@, cs.take(i as int + 1), fix));
        } else {
            assert(broken_lines(source@, cs.take(i as int + 1), fix) =~= broken_lines(source@, cs.take(i as int), fix));
        }
        i = i + 1;
    }
    assert(cs.take(checks.len() as int) =~= cs);
    out
}

/// The closing lines of `link check` after `checked` links of which
/// `broken` were broken, and the error it ends with when any was.
pub open spec fn check_summary(checked: nat, broken: nat) -> (Seq<Seq<char>>, Option<Seq<char>>) {
    let lines = seq![Seq::empty(), Seq::new(60, |i: int| '\u{2500}'), "Checked "@ + decimal(checked) + " link(s), found "@ + decimal(broken) + " broken"@];
    if broken > 0 {
        (lines, Some(decimal(broken) + " broken link(s) found"@))
    } else {
        (lines.push("\u{2713} All links are valid!"@), None)
    }
}

/// Writes the closing lines of `link check`, and the error it ends with
/// when a link was broken.
pub fn link_check_summary(checked: usize, broken: usize) -> (r: (Vec<String>, Option<String>))
    ensures
        r.0@.map_values(|s: String| s@) == check_summary(checked as nat, broken as nat).0,
        opt_view(r.1) == check_summary(checked as nat, broken as nat).1,
{
    let mut lines: Vec<String> = Vec::new();
    lines.push(String::new());
    let mut rule = String::new();
    let mut k: usize = 0;
    while k < 60
        invariant
            k <= 60,
            rule@ == Seq::new(k as nat, |i: int| '\u{2500}'),
        decreases 60 - k,
    {
        push_char(&mut rule, '\u{2500}');
        assert(rule@ =~= Seq::new(k as nat + 1, |i: int| '\u{2500}'));
        k = k + 1;
    }
    lines.push(rule);
    let mut total = concat_texts("Checked ", decimal_text(checked).as_str());
    append_text(&mut total, " link(s), found ");
    append_text(&mut total, decimal_text(broken).as_str());
    append_text(&mut total, " broken");
    lines.push(total);
    if broken > 0 {
        let err = concat_texts(decimal_text(broken).as_str(), " broken link(s) found");
        assert(lines@.map_values(|s: String| s@) =~= check_summary(checked as nat, broken as nat).0);
        (lines, Some(err))
    } else {
        lines.push("\u{2713} All links are valid!".to_owned());
        assert(lines@.map_values(|s: String| s@) =~= check_summary(checked as nat, broken as nat).0);
        (lines, None)
    }
}

} // verus!

//! Generation settings: one immutable profile per scenario kind.
use vstd::prelude::*;

verus! {

/// Requests drawn for every scenario that carries a request batch.
pub const REQUESTS_PER_SCENARIO: usize = 8;

/// Fewest policy groups in a role-based scenario.
pub const MIN_POLICY_GROUPS: usize = 1;

/// Most policy groups in a role-based scenario.
pub const MAX_POLICY_GROUPS: usize = 2;

/// Fewest links of a template.
pub const MIN_LINKS: usize = 1;

/// Most links of a template.
pub const MAX_LINKS: usize = 4;

/// Most entities of one entity type in a role-based hierarchy.
pub const MAX_ENTITIES_PER_TYPE: usize = 4;

/// Knobs handed to the external generators; each flag enables or disables a
/// language feature during generation.
#[derive(Clone, Copy, Debug, PartialEq, Eq, Structural)]
pub struct GenSettings {
    pub match_types: bool,
    pub enable_extensions: bool,
    pub max_depth: usize,
    pub max_width: usize,
    pub enable_additional_attributes: bool,
    pub enable_like: bool,
    pub enable_action_groups_and_attrs: bool,
    pub enable_arbitrary_func_call: bool,
    pub enable_unknowns: bool,
    pub enable_action_in_constraints: bool,
    pub enable_unspecified_apply_spec: bool,
}

/// Profile for type-directed scenarios (attribute-based policies and
/// expressions): types are matched, depth and width are bounded by 3.
pub fn type_directed_settings() -> (s: GenSettings)
    ensures
        s.match_types,
        s.enable_extensions,
        s.max_depth == 3,
        s.max_width == 3,
        !s.enable_additional_attributes,
        s.enable_like,
        s.enable_action_groups_and_attrs,
        s.enable_arbitrary_func_call,
        !s.enable_unknowns,
        s.enable_action_in_constraints,
        s.enable_unspecified_apply_spec,
{
    GenSettings {
        match_types: true,
        enable_extensions: true,
        max_depth: 3,
        max_width: 3,
        enable_additional_attributes: false,
        enable_like: true,
        enable_action_groups_and_attrs: true,
        enable_arbitrary_func_call: true,
        enable_unknowns: false,
        enable_action_in_constraints: true,
        enable_unspecified_apply_spec: true,
    }
}

/// Profile for the schema round-trip scenario: types are not matched, wider
/// declarations, and no action groups or action attributes.
pub fn schema_roundtrip_settings() -> (s: GenSettings)
    ensures
        !s.match_types,
        s.enable_extensions,
        s.max_depth == 3,
        s.max_width == 7,
        !s.enable_additional_attributes,
        s.enable_like,
        !s.enable_action_groups_and_attrs,
        s.enable_arbitrary_func_call,
        !s.enable_unknowns,
        s.enable_action_in_constraints,
        s.enable_unspecified_apply_spec,
{
    GenSettings {
        match_types: false,
        enable_extensions: true,
        max_depth: 3,
        max_width: 7,
        enable_additional_attributes: false,
        enable_like: true,
        enable_action_groups_and_attrs: false,
        enable_arbitrary_func_call: true,
        enable_unknowns: false,
        enable_action_in_constraints: true,
        enable_unspecified_apply_spec: true,
    }
}

} // verus!

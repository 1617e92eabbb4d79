//! The configuration loader's parsing half: turns configuration text into
//! the schema data model, translating every failure into the error
//! taxonomy's parse-failure variant. Reading the file from disk is the
//! caller's concern; this module starts from the text. The outcome is
//! pinned over the named results of the YAML calls: success exactly when
//! the text parses, holds an `event_table` member and its fields assemble,
//! and a parse failure with a fixed cause otherwise.

use vstd::prelude::*;
use crate::errors::SharpError;
use crate::schema::{EventSchema, EventTable};
use crate::yaml::{
    yaml_as_bool,
    yaml_as_string,
    yaml_as_u64,
    yaml_bool_of,
    yaml_error_string,
    yaml_get,
    yaml_member,
    yaml_parse,
    yaml_parse_doc,
    yaml_parse_err_text,
    yaml_parse_ok,
    yaml_string_of,
    yaml_u64_of,
};

verus! {

/// The character-level view of a raw string-field lookup: the structure is
/// kept and the contained string is replaced by its view.
pub open spec fn string_field_view(field: Option<Option<String>>) -> Option<Option<Seq<char>>> {
    match field {
        Option::Some(Option::Some(s)) => Some(Some(s@)),
        Option::Some(Option::None) => Some(None),
        Option::None => None,
    }
}

/// Whether raw field lookups assemble into a well-formed schema. For each
/// field, `None` means the field was absent from the document, `Some(None)`
/// present but of the wrong type, and `Some(Some(v))` present with value
/// `v`. The three required fields must be present and well-typed, the
/// tenancy flag must be well-typed when present, and the retention period
/// must fit its type.
pub open spec fn spec_fields_ok(
    name: Option<Option<Seq<char>>>,
    multi_tenant: Option<Option<bool>>,
    expected_events_per_day: Option<Option<u64>>,
    retention_days: Option<Option<u64>>,
) -> bool {
    &&& name matches Some(Some(_))
    &&& !(multi_tenant matches Some(None))
    &&& expected_events_per_day matches Some(Some(_))
    &&& retention_days matches Some(Some(d)) && d <= u32::MAX
}

/// The cause text reported for the first field, in declaration order, that
/// fails to assemble.
pub open spec fn spec_fields_error(
    name: Option<Option<Seq<char>>>,
    multi_tenant: Option<Option<bool>>,
    expected_events_per_day: Option<Option<u64>>,
    retention_days: Option<Option<u64>>,
) -> Seq<char>
    recommends
        !spec_fields_ok(name, multi_tenant, expected_events_per_day, retention_days),
{
    if name is None {
        "missing field `name`"@
    } else if name matches Some(None) {
        "invalid type for field `name`"@
    } else if multi_tenant matches Some(None) {
        "invalid type for field `multi_tenant`"@
    } else if expected_events_per_day is None {
        "missing field `expected_events_per_day`"@
    } else if expected_events_per_day matches Some(None) {
        "invalid type for field `expected_events_per_day`"@
    } else if retention_days is None {
        "missing field `retention_days`"@
    } else if retention_days matches Some(None) {
        "invalid type for field `retention_days`"@
    } else {
        "invalid value for field `retention_days`: out of range"@
    }
}

/// Assembles the schema from the raw field lookups of the document's
/// `event_table` mapping. Succeeds exactly when the fields are well-formed
/// ([`spec_fields_ok`]); the tenancy flag defaults to false exactly when it
/// is absent; every failure is a parse failure whose cause names the first
/// failing field.
pub fn schema_from_fields(
    name: Option<Option<String>>,
    multi_tenant: Option<Option<bool>>,
    expected_events_per_day: Option<Option<u64>>,
    retention_days: Option<Option<u64>>,
) -> (r: Result<EventSchema, SharpError>)
    ensures
        r is Ok <==> spec_fields_ok(
            string_field_view(name),
            multi_tenant,
            expected_events_per_day,
            retention_days,
        ),
        r matches Ok(s) ==> {
            &&& s.event_table.name == name->0->0
            &&& s.event_table.multi_tenant == (if multi_tenant is Some {
                multi_tenant->0->0
            } else {
                false
            })
            &&& s.event_table.expected_events_per_day == expected_events_per_day->0->0
            &&& s.event_table.retention_days == retention_days->0->0 as u32
        },
        r matches Err(e) ==> e matches SharpError::YamlError(cause) && cause@ == spec_fields_error(
            string_field_view(name),
            multi_tenant,
            expected_events_per_day,
            retention_days,
        ),
{
    let table_name: String = match name {
        Option::Some(Option::Some(n)) => n,
        Option::Some(Option::None) => {
            return Err(SharpError::YamlError("invalid type for field `name`".to_owned()));
        },
        Option::None => {
            return Err(SharpError::YamlError("missing field `name`".to_owned()));
        },
    };
    let tenant_flag: bool = match multi_tenant {
        Option::Some(Option::Some(b)) => b,
        Option::Some(Option::None) => {
            return Err(SharpError::YamlError("invalid type for field `multi_tenant`".to_owned()));
        },
        Option::None => false,
    };
    let events: u64 = match expected_events_per_day {
        Option::Some(Option::Some(e)) => e,
        Option::Some(Option::None) => {
            return Err(
                SharpError::YamlError(
                    "invalid type for field `expected_events_per_day`".to_owned(),
                ),
            );
        },
        Option::None => {
            return Err(
                SharpError::YamlError("missing field `expected_events_per_day`".to_owned()),
            );
        },
    };
    let retention: u64 = match retention_days {
        Option::Some(Option::Some(d)) => d,
        Option::Some(Option::None) => {
            return Err(SharpError::YamlError("invalid type for field `retention_days`".to_owned()));
        },
        Option::None => {
            return Err(SharpError::YamlError("missing field `retention_days`".to_owned()));
        },
    };
    if retention > u32::MAX as u64 {
        return Err(
            SharpError::YamlError("invalid value for field `retention_days`: out of range".to_owned()),
        );
    }
    Ok(
        EventSchema {
            event_table: EventTable {
                name: table_name,
                multi_tenant: tenant_flag,
                expected_events_per_day: events,
                retention_days: retention as u32,
            },
        },
    )
}

/// The raw lookup of a string field of `table` under `key`, over the named
/// member and string readings.
pub open spec fn spec_string_field(table: serde_yaml::Value, key: Seq<char>) -> Option<
    Option<Seq<char>>,
> {
    match yaml_member(table, key) {
        Option::Some(v) => Some(yaml_string_of(v)),
        Option::None => None,
    }
}

/// The raw lookup of an unsigned-integer field of `table` under `key`.
pub open spec fn spec_u64_field(table: serde_yaml::Value, key: Seq<char>) -> Option<Option<u64>> {
    match yaml_member(table, key) {
        Option::Some(v) => Some(yaml_u64_of(v)),
        Option::None => None,
    }
}

/// The raw lookup of a boolean field of `table` under `key`.
pub open spec fn spec_bool_field(table: serde_yaml::Value, key: Seq<char>) -> Option<Option<bool>> {
    match yaml_member(table, key) {
        Option::Some(v) => Some(yaml_bool_of(v)),
        Option::None => None,
    }
}

fn read_string_field(table: &serde_yaml::Value, key: &str) -> (r: Option<Option<String>>)
    ensures
        string_field_view(r) == spec_string_field(*table, key@),
{
    match yaml_get(table, key) {
        Option::Some(v) => Some(yaml_as_string(v)),
        Option::None => None,
    }
}

fn read_u64_field(table: &serde_yaml::Value, key: &str) -> (r: Option<Option<u64>>)
    ensures
        r == spec_u64_field(*table, key@),
{
    match yaml_get(table, key) {
        Option::Some(v) => Some(yaml_as_u64(v)),
        Option::None => None,
    }
}

fn read_bool_field(table: &serde_yaml::Value, key: &str) -> (r: Option<Option<bool>>)
    ensures
        r == spec_bool_field(*table, key@),
{
    match yaml_get(table, key) {
        Option::Some(v) => Some(yaml_as_bool(v)),
        Option::None => None,
    }
}

/// What [`parse_schema`] returns for `text`, over the named results of the
/// YAML calls: the parser's own cause when the text does not parse; a
/// missing-member cause when the document lacks `event_table`; otherwise a
/// schema assembled from the four field lookups exactly when they are
/// well-formed ([`spec_fields_ok`]), and the first failing field's cause
/// when they are not.
pub open spec fn spec_parse_result(text: Seq<char>, r: Result<EventSchema, SharpError>) -> bool {
    if !yaml_parse_ok(text) {
        r matches Err(SharpError::YamlError(c)) && c@ == yaml_parse_err_text(text)
    } else {
        match yaml_member(yaml_parse_doc(text), "event_table"@) {
            Option::None => r matches Err(SharpError::YamlError(c)) && c@
                == "missing field `event_table`"@,
            Option::Some(table) => {
                let name = spec_string_field(table, "name"@);
                let multi_tenant = spec_bool_field(table, "multi_tenant"@);
                let events = spec_u64_field(table, "expected_events_per_day"@);
                let retention = spec_u64_field(table, "retention_days"@);
                if spec_fields_ok(name, multi_tenant, events, retention) {
                    r matches Ok(s) && {
                        &&& s.event_table.name@ == name->0->0
                        &&& s.event_table.multi_tenant == (if multi_tenant is Some {
                            multi_tenant->0->0
                        } else {
                            false
                        })
                        &&& s.event_table.expected_events_per_day == events->0->0
                        &&& s.event_table.retention_days == retention->0->0 as u32
                    }
                } else {
                    r matches Err(SharpError::YamlError(c)) && c@ == spec_fields_error(
                        name,
                        multi_tenant,
                        events,
                        retention,
                    )
                }
            },
        }
    }
}

/// Parses configuration text into the schema: the document must hold an
/// `event_table` mapping whose fields assemble per [`schema_from_fields`].
/// The outcome is fixed by [`spec_parse_result`]; in particular every
/// failure is a parse failure.
pub fn parse_schema(text: &str) -> (r: Result<EventSchema, SharpError>)
    ensures
        spec_parse_result(text@, r),
        r matches Err(e) ==> e is YamlError,
{
    let doc = match yaml_parse(text) {
        Ok(d) => d,
        Err(e) => {
            return Err(SharpError::YamlError(yaml_error_string(&e)));
        },
    };
    let table = match yaml_get(&doc, "event_table") {
        Option::Some(t) => t,
        Option::None => {
            return Err(SharpError::YamlError("missing field `event_table`".to_owned()));
        },
    };
    let name = read_string_field(table, "name");
    let multi_tenant = read_bool_field(table, "multi_tenant");
    let expected_events_per_day = read_u64_field(table, "expected_events_per_day");
    let retention_days = read_u64_field(table, "retention_days");
    let r = schema_from_fields(name, multi_tenant, expected_events_per_day, retention_days);
    proof {
        assert(spec_parse_result(text@, r));
    }
    r
}

} // verus!

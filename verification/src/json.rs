//! The wire form of responses: compact JSON, with `errors` only where there
//! are errors and a batch as an array.

use crate::document::SourceLocation;
use crate::error::ServerError;
use crate::error::ServerErrorView;
use crate::path::decimal_digits;
use crate::path::push_decimal;
use crate::path::PathSegment;
use crate::path::SegmentView;
use crate::response::BatchResponse;
use crate::response::BatchResponseView;
use crate::response::ExecutionResult;
use crate::response::ExecutionResultView;
use crate::response::FieldEntry;
use crate::response::FieldEntryView;
use vstd::prelude::*;
use vstd::string::StringExecFns;

verus! {

/// The JSON string literal for a text: quoted and escaped.
pub uninterp spec fn json_string(text: Seq<char>) -> Seq<char>;

/// The compact JSON of a value, where it has one.
pub uninterp spec fn json_value(value: async_graphql::Value) -> Option<Seq<char>>;

/// Calls `serde_json::to_string` on the text: its JSON string literal, a
/// function of the text alone. Serializing a text does not fail.
#[verifier::external_body]
fn quote(text: &str) -> (quoted: String)
    ensures
        quoted@ == json_string(text@),
{
    match serde_json::to_string(text) {
        Ok(quoted) => quoted,
        Err(_) => String::new(),
    }
}

/// Calls `serde_json::to_string` on the value: its compact JSON, a function of
/// the value alone, or nothing where the serializer fails.
#[verifier::external_body]
fn value_json(value: &async_graphql::Value) -> (text: Option<String>)
    ensures
        text.deep_view() == json_value(*value),
{
    match serde_json::to_string(value) {
        Ok(text) => Some(text),
        Err(_) => None,
    }
}

/// The parts in order, with a comma between each two.
pub open spec fn joined(parts: Seq<Seq<char>>) -> Seq<char>
    decreases parts.len(),
{
    if parts.len() == 0 {
        Seq::empty()
    } else if parts.len() == 1 {
        parts[0]
    } else {
        joined(parts.drop_last()) + ","@ + parts.last()
    }
}

/// The JSON of a field's value: `null` where the field holds none, or where
/// its value has no JSON.
pub open spec fn field_value_json(value: Option<async_graphql::Value>) -> Seq<char> {
    match value {
        Some(value) => match json_value(value) {
            Some(text) => text,
            None => "null"@,
        },
        None => "null"@,
    }
}

/// The JSON of one field of the data: its key, a colon, its value.
pub open spec fn entry_json(entry: FieldEntryView) -> Seq<char> {
    json_string(entry.key) + ":"@ + field_value_json(entry.value)
}

/// The JSON of the data: an object with the fields in order, or `null`.
pub open spec fn data_json(data: Option<Seq<FieldEntryView>>) -> Seq<char> {
    match data {
        Some(entries) => "{"@ + joined(entries.map_values(|entry: FieldEntryView| entry_json(entry))) + "}"@,
        None => "null"@,
    }
}

/// The JSON of a path segment: a field as a string, an index as a number.
pub open spec fn segment_json(segment: SegmentView) -> Seq<char> {
    match segment {
        SegmentView::Field(name) => json_string(name),
        SegmentView::Index(index) => decimal_digits(index),
    }
}

/// The JSON of a place in the query text.
pub open spec fn location_json(location: SourceLocation) -> Seq<char> {
    "{\"line\":"@ + decimal_digits(location.line as nat) + ",\"column\":"@ + decimal_digits(
        location.column as nat,
    ) + "}"@
}

/// The `locations` member of an error, with its leading comma; nothing where
/// there are no locations.
pub open spec fn locations_json(locations: Seq<SourceLocation>) -> Seq<char> {
    if locations.len() > 0 {
        ",\"locations\":["@ + joined(locations.map_values(|location: SourceLocation| location_json(location)))
            + "]"@
    } else {
        Seq::empty()
    }
}

/// The `path` member of an error, with its leading comma; nothing where the
/// path is empty.
pub open spec fn path_json(path: Seq<SegmentView>) -> Seq<char> {
    if path.len() > 0 {
        ",\"path\":["@ + joined(path.map_values(|segment: SegmentView| segment_json(segment))) + "]"@
    } else {
        Seq::empty()
    }
}

/// The JSON of an error: the message, then the locations and the path, each
/// only where there are any.
pub open spec fn error_json(error: ServerErrorView) -> Seq<char> {
    "{\"message\":"@ + json_string(error.message) + locations_json(error.locations) + path_json(error.path)
        + "}"@
}

/// The `errors` member of a result, with its leading comma; nothing where
/// there are no errors.
pub open spec fn errors_json(errors: Seq<ServerErrorView>) -> Seq<char> {
    if errors.len() > 0 {
        ",\"errors\":["@ + joined(errors.map_values(|error: ServerErrorView| error_json(error))) + "]"@
    } else {
        Seq::empty()
    }
}

/// The JSON of one result: `data` always, `errors` only where there are any.
pub open spec fn result_json(result: ExecutionResultView) -> Seq<char> {
    "{\"data\":"@ + data_json(result.data) + errors_json(result.errors) + "}"@
}

/// The JSON of a response: a single result as one object, a batch as an array
/// of objects, also where the batch holds one result or none.
pub open spec fn response_json(response: BatchResponseView) -> Seq<char> {
    match response {
        BatchResponseView::Single(result) => result_json(result),
        BatchResponseView::Batch(results) => "["@ + joined(
            results.map_values(|result: ExecutionResultView| result_json(result)),
        ) + "]"@,
    }
}

/// Appends the parts to `out`, with a comma between each two.
fn push_joined(out: &mut String, parts: &Vec<String>)
    ensures
        final(out)@ == old(out)@ + joined(parts.deep_view()),
{
    let mut i: usize = 0;
    while i < parts.len()
        invariant
            i <= parts.len(),
            out@ == old(out)@ + joined(parts.deep_view().take(i as int)),
        decreases parts.len() - i,
    {
        let ghost before = out@;
        let ghost longer = parts.deep_view().take(i + 1);
        assert(longer.drop_last() =~= parts.deep_view().take(i as int));
        assert(longer.last() == parts[i as int]@);
        if i > 0 {
            out.append(",");
        }
        out.append(parts[i].as_str());
        assert(out@ =~= old(out)@ + joined(longer));
        i += 1;
    }
    assert(parts.deep_view().take(i as int) =~= parts.deep_view());
}

fn push_part(parts: &mut Vec<String>, part: String)
    ensures
        final(parts).deep_view() == old(parts).deep_view().push(part@),
{
    parts.push(part);
    assert(parts.deep_view() =~= old(parts).deep_view().push(part@));
}

fn render_entry(entry: &FieldEntry) -> (text: String)
    ensures
        text@ == entry_json(entry.deep_view()),
{
    let mut text = quote(entry.key.as_str());
    text.append(":");
    let value = match &entry.value {
        Some(value) => value_json(value),
        None => None,
    };
    match value {
        Some(json) => text.append(json.as_str()),
        None => text.append("null"),
    }
    text
}

fn render_data(out: &mut String, data: &Option<Vec<FieldEntry>>)
    ensures
        final(out)@ == old(out)@ + data_json(data.deep_view()),
{
    match data {
        Some(entries) => {
            let ghost views = entries.deep_view().map_values(|entry: FieldEntryView| entry_json(entry));
            let mut parts: Vec<String> = Vec::new();
            let mut i: usize = 0;
            assert(parts.deep_view() =~= views.take(0));
            while i < entries.len()
                invariant
                    i <= entries.len(),
                    views == entries.deep_view().map_values(|entry: FieldEntryView| entry_json(entry)),
                    parts.deep_view() == views.take(i as int),
                decreases entries.len() - i,
            {
                push_part(&mut parts, render_entry(&entries[i]));
                assert(views.take(i + 1) =~= views.take(i as int).push(entry_json(entries[i as int].deep_view())));
                i += 1;
            }
            assert(views.take(i as int) =~= views);
            out.append("{");
            push_joined(out, &parts);
            out.append("}");
            assert(out@ =~= old(out)@ + data_json(data.deep_view()));
        },
        None => {
            out.append("null");
        },
    }
}

fn render_segment(segment: &PathSegment) -> (text: String)
    ensures
        text@ == segment_json(segment.deep_view()),
{
    match segment {
        PathSegment::Field(name) => quote(name.as_str()),
        PathSegment::Index(index) => {
            let mut text = String::new();
            push_decimal(&mut text, *index);
            assert(text@ =~= decimal_digits(*index as nat));
            text
        },
    }
}

fn render_location(location: &SourceLocation) -> (text: String)
    ensures
        text@ == location_json(*location),
{
    let mut text = String::from_str("{\"line\":");
    push_decimal(&mut text, location.line);
    text.append(",\"column\":");
    push_decimal(&mut text, location.column);
    text.append("}");
    text
}

fn render_locations(out: &mut String, locations: &Vec<SourceLocation>)
    ensures
        final(out)@ == old(out)@ + locations_json(locations@),
{
    if locations.len() > 0 {
        let ghost views = locations@.map_values(|location: SourceLocation| location_json(location));
        let mut parts: Vec<String> = Vec::new();
        let mut i: usize = 0;
        assert(parts.deep_view() =~= views.take(0));
        while i < locations.len()
            invariant
                i <= locations.len(),
                views == locations@.map_values(|location: SourceLocation| location_json(location)),
                parts.deep_view() == views.take(i as int),
            decreases locations.len() - i,
        {
            push_part(&mut parts, render_location(&locations[i]));
            assert(views.take(i + 1) =~= views.take(i as int).push(location_json(locations[i as int])));
            i += 1;
        }
        assert(views.take(i as int) =~= views);
        out.append(",\"locations\":[");
        push_joined(out, &parts);
        out.append("]");
        assert(out@ =~= old(out)@ + locations_json(locations@));
    } else {
        assert(out@ =~= old(out)@ + locations_json(locations@));
    }
}

fn render_path_json(out: &mut String, path: &Vec<PathSegment>)
    ensures
        final(out)@ == old(out)@ + path_json(path.deep_view()),
{
    if path.len() > 0 {
        let ghost views = path.deep_view().map_values(|segment: SegmentView| segment_json(segment));
        let mut parts: Vec<String> = Vec::new();
        let mut i: usize = 0;
        assert(parts.deep_view() =~= views.take(0));
        while i < path.len()
            invariant
                i <= path.len(),
                views == path.deep_view().map_values(|segment: SegmentView| segment_json(segment)),
                parts.deep_view() == views.take(i as int),
            decreases path.len() - i,
        {
            push_part(&mut parts, render_segment(&path[i]));
            assert(views.take(i + 1) =~= views.take(i as int).push(segment_json(path[i as int].deep_view())));
            i += 1;
        }
        assert(views.take(i as int) =~= views);
        out.append(",\"path\":[");
        push_joined(out, &parts);
        out.append("]");
        assert(out@ =~= old(out)@ + path_json(path.deep_view()));
    } else {
        assert(out@ =~= old(out)@ + path_json(path.deep_view()));
    }
}

fn render_error_json(error: &ServerError) -> (text: String)
    ensures
        text@ == error_json(error.deep_view()),
{
    let mut text = String::from_str("{\"message\":");
    let message = quote(error.message.as_str());
    text.append(message.as_str());
    render_locations(&mut text, &error.locations);
    render_path_json(&mut text, &error.path);
    text.append("}");
    assert(text@ =~= error_json(error.deep_view()));
    text
}

fn render_errors(out: &mut String, errors: &Vec<ServerError>)
    ensures
        final(out)@ == old(out)@ + errors_json(errors.deep_view()),
{
    if errors.len() > 0 {
        let ghost views = errors.deep_view().map_values(|error: ServerErrorView| error_json(error));
        let mut parts: Vec<String> = Vec::new();
        let mut i: usize = 0;
        assert(parts.deep_view() =~= views.take(0));
        while i < errors.len()
            invariant
                i <= errors.len(),
                views == errors.deep_view().map_values(|error: ServerErrorView| error_json(error)),
                parts.deep_view() == views.take(i as int),
            decreases errors.len() - i,
        {
            push_part(&mut parts, render_error_json(&errors[i]));
            assert(views.take(i + 1) =~= views.take(i as int).push(error_json(errors[i as int].deep_view())));
            i += 1;
        }
        assert(views.take(i as int) =~= views);
        out.append(",\"errors\":[");
        push_joined(out, &parts);
        out.append("]");
        assert(out@ =~= old(out)@ + errors_json(errors.deep_view()));
    } else {
        assert(out@ =~= old(out)@ + errors_json(errors.deep_view()));
    }
}

/// Writes one result as compact JSON.
pub fn render_result(result: &ExecutionResult) -> (text: String)
    ensures
        text@ == result_json(result.deep_view()),
{
    let mut text = String::from_str("{\"data\":");
    render_data(&mut text, &result.data);
    render_errors(&mut text, &result.errors);
    text.append("}");
    assert(text@ =~= result_json(result.deep_view()));
    text
}

/// Writes a response as compact JSON: a single result as one object, a batch
/// as an array.
pub fn render_response(response: &BatchResponse) -> (text: String)
    ensures
        text@ == response_json(response.deep_view()),
{
    match response {
        BatchResponse::Single(result) => render_result(result),
        BatchResponse::Batch(results) => {
            let ghost views = results.deep_view().map_values(|result: ExecutionResultView| result_json(result));
            let mut parts: Vec<String> = Vec::new();
            let mut i: usize = 0;
            assert(parts.deep_view() =~= views.take(0));
            while i < results.len()
                invariant
                    i <= results.len(),
                    views == results.deep_view().map_values(|result: ExecutionResultView| result_json(result)),
                    parts.deep_view() == views.take(i as int),
                decreases results.len() - i,
            {
                push_part(&mut parts, render_result(&results[i]));
                assert(views.take(i + 1) =~= views.take(i as int).push(result_json(results[i as int].deep_view())));
                i += 1;
            }
            assert(views.take(i as int) =~= views);
            let mut text = String::from_str("[");
            push_joined(&mut text, &parts);
            text.append("]");
            assert(text@ =~= response_json(response.deep_view()));
            text
        },
    }
}

} // verus!

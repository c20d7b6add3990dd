use vstd::prelude::*;

verus! {

/// The serialization formats a secret's content may take, both in the remote
/// store and while being viewed or edited locally.
#[derive(Clone, Copy, PartialEq, Eq, Structural, Debug)]
pub enum ContentFormat {
    JSON,
    YAML,
    TEXT,
}

/// Why a conversion was refused: the content did not parse in `format`, or the
/// parsed value could not be re-emitted in the requested format.  `cause`
/// carries the parser's or emitter's own description of what went wrong.
#[derive(Debug)]
pub struct ConvertError {
    pub format: ContentFormat,
    pub cause: String,
}

/// Whether serde_json accepts a string as JSON.
pub uninterp spec fn is_json(s: Seq<char>) -> bool;

/// Whether serde_yaml accepts a string as YAML.
pub uninterp spec fn is_yaml(s: Seq<char>) -> bool;

/// The stable pretty-printing of a valid JSON document.
pub uninterp spec fn json_reserialized(s: Seq<char>) -> Seq<char>;

/// The YAML serialization of a valid JSON document, where one exists.
pub uninterp spec fn yaml_of_json(s: Seq<char>) -> Option<Seq<char>>;

/// The pretty-printed JSON serialization of a valid YAML document, where one
/// exists (YAML values JSON cannot carry, such as maps with non-string keys,
/// have none).
pub uninterp spec fn json_of_yaml(s: Seq<char>) -> Option<Seq<char>>;

/// The YAML re-emission of a valid YAML document, where one exists.
pub uninterp spec fn yaml_reserialized(s: Seq<char>) -> Option<Seq<char>>;

/// Relies on serde_json::from_str::<serde_json::Value>, which succeeds exactly
/// on well-formed JSON.
#[verifier::external_body]
fn json_validate(content: &str) -> (r: Result<(), String>)
    ensures
        r is Ok <==> is_json(content@),
{
    match serde_json::from_str::<serde_json::Value>(content) {
        Ok(_) => Ok(()),
        Err(e) => Err(e.to_string()),
    }
}

/// Relies on serde_json::from_str::<serde_json::Value>, which succeeds exactly
/// on well-formed JSON, and serde_json::to_string_pretty, which cannot fail on
/// a parsed JSON value: all its map keys are strings, its numbers are finite,
/// and it writes into an in-memory buffer.
#[verifier::external_body]
fn json_reformat(content: &str) -> (r: Result<String, String>)
    ensures
        r is Ok <==> is_json(content@),
        r is Ok ==> r->Ok_0@ == json_reserialized(content@),
{
    match serde_json::from_str::<serde_json::Value>(content) {
        Ok(value) => serde_json::to_string_pretty(&value).map_err(|e| e.to_string()),
        Err(e) => Err(e.to_string()),
    }
}

/// Relies on serde_json::from_str::<serde_json::Value>, which succeeds exactly
/// on well-formed JSON, and serde_yaml::to_string, whose output is a function
/// of the parsed value alone.
#[verifier::external_body]
fn json_emit_yaml(content: &str) -> (r: Result<String, String>)
    ensures
        r is Ok <==> (is_json(content@) && yaml_of_json(content@) is Some),
        r is Ok ==> Some(r->Ok_0@) == yaml_of_json(content@),
{
    match serde_json::from_str::<serde_json::Value>(content) {
        Ok(value) => serde_yaml::to_string(&value).map_err(|e| e.to_string()),
        Err(e) => Err(e.to_string()),
    }
}

/// Relies on serde_yaml::from_str::<serde_yaml::Value>, which succeeds exactly
/// on well-formed YAML, and serde_json::to_string_pretty, which refuses values
/// JSON cannot carry (maps with non-string keys) and otherwise emits a
/// function of the parsed value alone.
#[verifier::external_body]
fn yaml_emit_json(content: &str) -> (r: Result<String, String>)
    ensures
        r is Ok <==> (is_yaml(content@) && json_of_yaml(content@) is Some),
        r is Ok ==> Some(r->Ok_0@) == json_of_yaml(content@),
{
    match serde_yaml::from_str::<serde_yaml::Value>(content) {
        Ok(value) => serde_json::to_string_pretty(&value).map_err(|e| e.to_string()),
        Err(e) => Err(e.to_string()),
    }
}

/// Relies on serde_yaml::from_str::<serde_yaml::Value>, which succeeds exactly
/// on well-formed YAML.
#[verifier::external_body]
fn yaml_validate(content: &str) -> (r: Result<(), String>)
    ensures
        r is Ok <==> is_yaml(content@),
{
    match serde_yaml::from_str::<serde_yaml::Value>(content) {
        Ok(_) => Ok(()),
        Err(e) => Err(e.to_string()),
    }
}

/// Relies on serde_yaml::from_str::<serde_yaml::Value>, which succeeds exactly
/// on well-formed YAML, and serde_yaml::to_string, whose output is a function
/// of the parsed value alone.
#[verifier::external_body]
fn yaml_reformat(content: &str) -> (r: Result<String, String>)
    ensures
        r is Ok <==> (is_yaml(content@) && yaml_reserialized(content@) is Some),
        r is Ok ==> Some(r->Ok_0@) == yaml_reserialized(content@),
{
    match serde_yaml::from_str::<serde_yaml::Value>(content) {
        Ok(value) => serde_yaml::to_string(&value).map_err(|e| e.to_string()),
        Err(e) => Err(e.to_string()),
    }
}

/// What converting `c` from `from` to `to` yields: `None` where the conversion
/// is refused.  Text is a universal fallback: it is passed through unparsed as
/// a source, and returning to it hands the original content back unchanged
/// (after validating the source format).
pub open spec fn convert_spec(c: Seq<char>, from: ContentFormat, to: ContentFormat) -> Option<
    Seq<char>,
> {
    match from {
        ContentFormat::JSON => {
            if !is_json(c) {
                None
            } else {
                match to {
                    ContentFormat::JSON => Some(json_reserialized(c)),
                    ContentFormat::YAML => yaml_of_json(c),
                    ContentFormat::TEXT => Some(c),
                }
            }
        },
        ContentFormat::YAML => {
            if !is_yaml(c) {
                None
            } else {
                match to {
                    ContentFormat::JSON => json_of_yaml(c),
                    ContentFormat::YAML => yaml_reserialized(c),
                    ContentFormat::TEXT => Some(c),
                }
            }
        },
        ContentFormat::TEXT => Some(c),
    }
}

/// Takes a string in `source_format` and yields the same structural value
/// serialized in `destination_format`.  A text source, or a text destination
/// whose source parses, passes the content through byte for byte.
pub fn format_convert(
    content: &String,
    source_format: &ContentFormat,
    destination_format: &ContentFormat,
) -> (r: Result<String, ConvertError>)
    ensures
        r is Ok <==> convert_spec(content@, *source_format, *destination_format) is Some,
        r is Ok ==> Some(r->Ok_0@) == convert_spec(
            content@,
            *source_format,
            *destination_format,
        ),
        r is Err ==> r->Err_0.format == *source_format && *source_format != ContentFormat::TEXT,
{
    match *source_format {
        ContentFormat::JSON => {
            let converted = match *destination_format {
                ContentFormat::JSON => json_reformat(content.as_str()),
                ContentFormat::YAML => json_emit_yaml(content.as_str()),
                ContentFormat::TEXT => {
                    match json_validate(content.as_str()) {
                        Ok(_) => Ok(content.clone()),
                        Err(cause) => Err(cause),
                    }
                },
            };
            match converted {
                Ok(s) => Ok(s),
                Err(cause) => Err(ConvertError { format: ContentFormat::JSON, cause }),
            }
        },
        ContentFormat::YAML => {
            let converted = match *destination_format {
                ContentFormat::JSON => yaml_emit_json(content.as_str()),
                ContentFormat::YAML => yaml_reformat(content.as_str()),
                ContentFormat::TEXT => {
                    match yaml_validate(content.as_str()) {
                        Ok(_) => Ok(content.clone()),
                        Err(cause) => Err(cause),
                    }
                },
            };
            match converted {
                Ok(s) => Ok(s),
                Err(cause) => Err(ConvertError { format: ContentFormat::YAML, cause }),
            }
        },
        ContentFormat::TEXT => Ok(content.clone()),
    }
}

/// Text is a universal fallback: converting from text never parses and hands
/// the content back unchanged, whatever the destination; and converting to
/// text hands the content back unchanged whenever it is accepted at all.
pub proof fn lemma_text_passthrough(c: Seq<char>, from: ContentFormat, to: ContentFormat)
    ensures
        convert_spec(c, ContentFormat::TEXT, to) == Some(c),
        convert_spec(c, from, ContentFormat::TEXT) is Some ==> convert_spec(
            c,
            from,
            ContentFormat::TEXT,
        ) == Some(c),
{
}

} // verus!

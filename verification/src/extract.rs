use vstd::prelude::*;

verus! {

/// A structured document, as much of it as bytecode extraction reads:
/// string leaves, objects holding named fields in order, and everything
/// else collapsed into `Other`.
#[derive(Debug, PartialEq, Eq)]
pub enum Document {
    Str(String),
    Object(Vec<(String, Document)>),
    Other,
}

/// Failure of bytecode extraction, one variant per missing nesting level
/// and one for a leaf of the wrong type.
#[derive(Debug, Clone, Copy, PartialEq, Eq, Structural)]
pub enum ExtractError {
    MissingBytecode,
    MissingObject,
    NotAString,
}

impl ExtractError {
    /// Human-readable description, naming the absent key or the mistyped
    /// leaf.
    pub fn message(&self) -> (s: &'static str)
        ensures
            s@ == self.spec_message(),
    {
        match self {
            ExtractError::MissingBytecode => "The key `bytecode` does not exist",
            ExtractError::MissingObject => "The child key `object` does not exist",
            ExtractError::NotAString => "The key `object` does not hold a string",
        }
    }

    pub open spec fn spec_message(&self) -> Seq<char> {
        match self {
            ExtractError::MissingBytecode => "The key `bytecode` does not exist"@,
            ExtractError::MissingObject => "The child key `object` does not exist"@,
            ExtractError::NotAString => "The key `object` does not hold a string"@,
        }
    }
}

/// First field with the given name among a document object's fields, or
/// `None` when no field carries it.
pub open spec fn spec_lookup(fields: Seq<(String, Document)>, key: Seq<char>) -> Option<Document>
    decreases fields.len(),
{
    if fields.len() == 0 {
        None
    } else if fields[0].0@ == key {
        Some(fields[0].1)
    } else {
        spec_lookup(fields.drop_first(), key)
    }
}

/// Field of a document under the given name; anything but an object has
/// no fields.
pub open spec fn spec_field(doc: Document, key: Seq<char>) -> Option<Document> {
    match doc {
        Document::Object(fields) => spec_lookup(fields@, key),
        _ => None,
    }
}

/// The bytecode string of an artifact document: the string under
/// `bytecode`, then `object`. Each missing level and a non-string leaf
/// fail distinctly.
pub open spec fn spec_extract(doc: Document) -> Result<Seq<char>, ExtractError> {
    match spec_field(doc, "bytecode"@) {
        None => Err(ExtractError::MissingBytecode),
        Some(inner) => match spec_field(inner, "object"@) {
            None => Err(ExtractError::MissingObject),
            Some(leaf) => match leaf {
                Document::Str(s) => Ok(s@),
                _ => Err(ExtractError::NotAString),
            },
        },
    }
}

fn get_field<'a>(fields: &'a Vec<(String, Document)>, key: &str) -> (r: Option<&'a Document>)
    ensures
        match r {
            Some(d) => spec_lookup(fields@, key@) == Some(*d),
            None => spec_lookup(fields@, key@) is None,
        },
{
    let n = fields.len();
    let key_string: String = key.to_owned();
    let mut i: usize = 0;
    proof {
        assert(fields@.skip(0) =~= fields@);
    }
    while i < n
        invariant
            i <= n,
            n == fields@.len(),
            key_string@ == key@,
            spec_lookup(fields@, key@) == spec_lookup(fields@.skip(i as int), key@),
        decreases n - i,
    {
        if fields[i].0 == key_string {
            return Some(&fields[i].1);
        }
        i = i + 1;
        proof {
            assert(fields@.skip(i - 1).drop_first() =~= fields@.skip(i as int));
        }
    }
    proof {
        assert(fields@.skip(i as int) =~= Seq::<(String, Document)>::empty());
    }
    None
}

/// Extract the bytecode hex string from an artifact document: the string
/// leaf under the top-level key `bytecode` and its child key `object`.
/// Reports which nesting level is absent, or that the leaf is no string.
pub fn validate_json(data: Document) -> (r: Result<String, ExtractError>)
    ensures
        match r {
            Ok(s) => spec_extract(data) == Ok::<Seq<char>, ExtractError>(s@),
            Err(e) => spec_extract(data) == Err::<Seq<char>, ExtractError>(e),
        },
{
    let outer_fields = match &data {
        Document::Object(fields) => fields,
        _ => {
            return Err(ExtractError::MissingBytecode);
        },
    };
    let inner = match get_field(outer_fields, "bytecode") {
        Some(d) => d,
        None => {
            return Err(ExtractError::MissingBytecode);
        },
    };
    let inner_fields = match inner {
        Document::Object(fields) => fields,
        _ => {
            return Err(ExtractError::MissingObject);
        },
    };
    let leaf = match get_field(inner_fields, "object") {
        Some(d) => d,
        None => {
            return Err(ExtractError::MissingObject);
        },
    };
    match leaf {
        Document::Str(s) => Ok(s.clone()),
        _ => Err(ExtractError::NotAString),
    }
}

} // verus!

use vstd::prelude::*;
use vstd::string::StrSliceExecFns;
use vstd::string::to_string_from_display_ensures;
use vstd::utf8::encode_utf8;

verus! {

/// How many filler portions are made when no file is given.
pub const EMPTY_SPACES_COUNT: usize = 100;

/// The single byte that fills a default portion: the ASCII space.
pub const SPACE: u8 = 32;

/// The default portion set: `EMPTY_SPACES_COUNT` portions of one space each.
pub open spec fn default_portions() -> Seq<Seq<u8>> {
    Seq::new(EMPTY_SPACES_COUNT as nat, |i: int| seq![SPACE])
}

/// What a sequence of portions holds, byte for byte.
pub open spec fn portions_view(v: Seq<Vec<u8>>) -> Seq<Seq<u8>> {
    v.map_values(|p: Vec<u8>| p@)
}

/// Generates empty spaces as default data portions.
pub fn gen_portions() -> (r: Vec<Vec<u8>>)
    ensures
        r@.len() == EMPTY_SPACES_COUNT,
        portions_view(r@) == default_portions(),
{
    let mut spaces: Vec<Vec<u8>> = Vec::with_capacity(EMPTY_SPACES_COUNT);
    while spaces.len() < EMPTY_SPACES_COUNT
        invariant
            spaces@.len() <= EMPTY_SPACES_COUNT,
            forall|i: int| 0 <= i < spaces@.len() ==> (#[trigger] spaces@[i])@ == seq![SPACE],
        decreases EMPTY_SPACES_COUNT - spaces@.len(),
    {
        spaces.push(vec![SPACE]);
    }
    assert(portions_view(spaces@) =~= default_portions());
    spaces
}

/// std's I/O error, carried through unopened.
#[verifier::external_type_specification]
#[verifier::external_body]
pub struct ExIoError(std::io::Error);

/// serde_json's error, carried through unopened.
#[verifier::external_type_specification]
#[verifier::external_body]
pub struct ExJsonError(serde_json::Error);

/// Why no portion set could be had from a file.
#[derive(Debug)]
pub enum ReadPortionsError {
    /// Used when the function cannot read file content.
    ReadFailed(std::io::Error),
    /// Used when the function cannot parse JSON structure.
    JsonParseFailed(serde_json::Error),
}

impl ReadPortionsError {
    /// The wrapped error's own rendering, with nothing added.
    pub fn to_string(&self) -> (r: String)
        ensures
            match self {
                ReadPortionsError::ReadFailed(e) => to_string_from_display_ensures(e, r),
                ReadPortionsError::JsonParseFailed(e) => to_string_from_display_ensures(e, r),
            },
    {
        match self {
            ReadPortionsError::ReadFailed(e) => e.to_string(),
            ReadPortionsError::JsonParseFailed(e) => e.to_string(),
        }
    }
}

/// The strings of a JSON document whose whole text is one array of strings,
/// in order; `None` when the bytes are not valid JSON of that shape.
pub uninterp spec fn json_string_array(b: Seq<u8>) -> Option<Seq<Seq<char>>>;

/// What a sequence of strings holds, character for character.
pub open spec fn strings_view(v: Seq<String>) -> Seq<Seq<char>> {
    v.map_values(|s: String| s@)
}

/// Each string turned into the bytes of its UTF-8 text, in the same order.
pub open spec fn utf8_portions(ss: Seq<Seq<char>>) -> Seq<Seq<u8>> {
    ss.map_values(|s: Seq<char>| encode_utf8(s))
}

/// The portion set that file content yields, or `None` when it does not
/// parse as a JSON array of strings.
pub open spec fn loaded_portions(content: Seq<u8>) -> Option<Seq<Seq<u8>>> {
    match json_string_array(content) {
        Some(ss) => Some(utf8_portions(ss)),
        None => None,
    }
}

/// Relies on serde_json::from_slice::<Vec<String>>: it decodes the whole of
/// `b` as one JSON array of strings, and what it yields depends on the bytes
/// alone.
#[verifier::external_body]
fn parse_string_array(b: &[u8]) -> (r: Result<Vec<String>, serde_json::Error>)
    ensures
        r is Ok <==> json_string_array(b@) is Some,
        r is Ok ==> strings_view(r->Ok_0@) == json_string_array(b@)->Some_0,
{
    serde_json::from_slice::<Vec<String>>(b)
}

/// Converts each string into the bytes of its text, keeping the order.
pub fn portions_from_strings(strings: Vec<String>) -> (r: Vec<Vec<u8>>)
    ensures
        r@.len() == strings@.len(),
        portions_view(r@) == utf8_portions(strings_view(strings@)),
{
    let mut portions: Vec<Vec<u8>> = Vec::with_capacity(strings.len());
    let mut i: usize = 0;
    while i < strings.len()
        invariant
            i <= strings@.len(),
            portions@.len() == i,
            forall|j: int|
                0 <= j < i ==> (#[trigger] portions@[j])@ == encode_utf8(strings@[j]@),
        decreases strings@.len() - i,
    {
        portions.push(strings[i].as_str().as_bytes_vec());
        i = i + 1;
    }
    assert(portions_view(portions@) =~= utf8_portions(strings_view(strings@)));
    portions
}


/// What a call with this source owes: the default set when no file was
/// selected; the read error, unchanged, when the file could not be read; the
/// file's strings as bytes when its content parses as a JSON array of
/// strings; a parse error otherwise.
pub open spec fn portions_result(
    file: Option<Result<Vec<u8>, std::io::Error>>,
    r: Result<Vec<Vec<u8>>, ReadPortionsError>,
) -> bool {
    match file {
        None => r is Ok && portions_view(r->Ok_0@) == default_portions(),
        Some(Err(e)) => r is Err && r->Err_0 == ReadPortionsError::ReadFailed(e),
        Some(Ok(content)) => match loaded_portions(content@) {
            Some(ps) => r is Ok && portions_view(r->Ok_0@) == ps,
            None => r is Err && r->Err_0 is JsonParseFailed,
        },
    }
}

/// If `file` is some, this function takes data portions from the outcome of
/// reading the selected file. Otherwise, it generates empty spaces.
pub fn get_portions(file: Option<Result<Vec<u8>, std::io::Error>>) -> (r: Result<
    Vec<Vec<u8>>,
    ReadPortionsError,
>)
    ensures
        portions_result(file, r),
{
    match file {
        Some(content) => read_portions(content),
        None => Ok(gen_portions()),
    }
}

/// Extracts data portions from the outcome of reading a file.
fn read_portions(content: Result<Vec<u8>, std::io::Error>) -> (r: Result<
    Vec<Vec<u8>>,
    ReadPortionsError,
>)
    ensures
        portions_result(Some(content), r),
{
    match content {
        Err(e) => Err(ReadPortionsError::ReadFailed(e)),
        Ok(bytes) => match parse_string_array(bytes.as_slice()) {
            Err(e) => Err(ReadPortionsError::JsonParseFailed(e)),
            Ok(strings) => Ok(portions_from_strings(strings)),
        },
    }
}

/// Asking twice with the same source gives the same answer: both calls
/// succeed or both fail, with the same portion set on success and the same
/// kind of error on failure.
pub proof fn lemma_get_portions_idempotent(
    file: Option<Result<Vec<u8>, std::io::Error>>,
    r1: Result<Vec<Vec<u8>>, ReadPortionsError>,
    r2: Result<Vec<Vec<u8>>, ReadPortionsError>,
)
    requires
        portions_result(file, r1),
        portions_result(file, r2),
    ensures
        r1 is Ok <==> r2 is Ok,
        r1 is Ok ==> portions_view(r1->Ok_0@) == portions_view(r2->Ok_0@),
        r1 is Err ==> (r1->Err_0 is ReadFailed <==> r2->Err_0 is ReadFailed),
        r1 is Err ==> (r1->Err_0 is JsonParseFailed <==> r2->Err_0 is JsonParseFailed),
{
}

} // verus!

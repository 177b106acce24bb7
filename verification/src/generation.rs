//! The generation-service logic: prompt construction, response decoding,
//! candidate extraction, and the two call sites built on it — branch-name
//! derivation and fix-file drafting with its JSON-first, fence-stripping
//! fallback parse. The surrounding binary performs the HTTP call and hands
//! the response body text in.

use vstd::prelude::*;
use vstd::string::{StringExecFns};
use crate::errors::FlowError;
use crate::slug::{slug_spec, slugify};
use crate::strutil::{lower_of, lowercase};
use crate::text::{strip_fences, strip_fences_spec, trim, trim_spec};

verus! {

/// The decoded shape of a generation-service response.
pub struct GeminiResponse {
    pub candidates: Vec<GeminiCandidate>,
    pub error: Option<GeminiError>,
}

/// One response candidate.
pub struct GeminiCandidate {
    pub content: GeminiContentResponse,
}

/// The content of a candidate: its text parts.
pub struct GeminiContentResponse {
    pub parts: Vec<GeminiPartResponse>,
}

/// One text part of a candidate.
pub struct GeminiPartResponse {
    pub text: String,
}

/// A structured error reported by the generation service.
pub struct GeminiError {
    pub message: String,
}

/// The texts of a candidate's parts.
pub open spec fn part_texts(parts: Seq<GeminiPartResponse>) -> Seq<Seq<char>> {
    parts.map_values(|p: GeminiPartResponse| p.text@)
}

/// The record of every candidate: for each, the texts of its parts.
pub open spec fn cand_recs(cs: Seq<GeminiCandidate>) -> Seq<Seq<Seq<char>>> {
    cs.map_values(|c: GeminiCandidate| part_texts(c.content.parts@))
}

/// The message of a decoded service error, where one is present.
pub open spec fn err_view(e: Option<GeminiError>) -> Option<Seq<char>> {
    match e {
        None => None,
        Some(e) => Some(e.message@),
    }
}

/// What decoding the `error` field of a generation response yields on the
/// given body text: nothing where the body is not the expected JSON
/// shape, an inner `None` where no error is reported, else the error
/// message. The result depends on the body text alone.
pub uninterp spec fn gen_error_of(body: Seq<char>) -> Option<Option<Seq<char>>>;

/// What decoding the `candidates` field of a generation response yields
/// on the given body text: nothing where the body or a candidate does not
/// decode, else every candidate's part texts, an absent field reading as
/// no candidates. The result depends on the body text alone.
pub uninterp spec fn gen_candidates_of(body: Seq<char>) -> Option<Seq<Seq<Seq<char>>>>;

/// The view of a decoded `error` field.
pub open spec fn err_opt_view(r: Option<Option<GeminiError>>) -> Option<Option<Seq<char>>> {
    match r {
        None => None,
        Some(e) => Some(err_view(e)),
    }
}

/// The view of a decoded `candidates` field.
pub open spec fn cands_opt_view(r: Option<Vec<GeminiCandidate>>) -> Option<Seq<Seq<Seq<char>>>> {
    match r {
        None => None,
        Some(v) => Some(cand_recs(v@)),
    }
}

/// Relies on `serde_json::from_str`, `Value::as_object`, `Map::get`,
/// `Value::is_null`, `Value::get` and `Value::as_str`: decodes the
/// `error: {message}` field of a generation response. `None` where the
/// body is not a JSON object or a present error lacks a string message;
/// `Some(None)` where no error is reported.
#[verifier::external_body]
fn parse_gen_error(body: &str) -> (r: Option<Option<GeminiError>>)
    ensures
        err_opt_view(r) == gen_error_of(body@),
{
    let v: serde_json::Value = serde_json::from_str(body).ok()?;
    let obj = v.as_object()?;
    match obj.get("error") {
        None => Some(None),
        Some(e) if e.is_null() => Some(None),
        Some(e) => Some(Some(GeminiError { message: e.get("message")?.as_str()?.to_owned() })),
    }
}

/// Relies on `serde_json::from_str`, `Value::as_object`, `Map::get`,
/// `Value::as_array`, `Value::get` and `Value::as_str`: decodes the
/// `candidates: [{content: {parts: [{text}]}}]` field of a generation
/// response. `None` where the body is not a JSON object or a candidate
/// does not have that shape; an absent field decodes as no candidates.
#[verifier::external_body]
fn parse_gen_candidates(body: &str) -> (r: Option<Vec<GeminiCandidate>>)
    ensures
        cands_opt_view(r) == gen_candidates_of(body@),
{
    let v: serde_json::Value = serde_json::from_str(body).ok()?;
    let obj = v.as_object()?;
    let mut out = Vec::new();
    if let Some(cs) = obj.get("candidates") {
        for c in cs.as_array()? {
            let mut parts = Vec::new();
            for p in c.get("content")?.get("parts")?.as_array()? {
                parts.push(GeminiPartResponse { text: p.get("text")?.as_str()?.to_owned() });
            }
            out.push(GeminiCandidate { content: GeminiContentResponse { parts } });
        }
    }
    Some(out)
}

/// Decodes a generation-service response body into its structured shape.
/// A body that does not decode is a decode error carrying the body.
pub fn response_from_body(body: &str) -> (r: Result<GeminiResponse, FlowError>)
    ensures
        (gen_error_of(body@) is None || gen_candidates_of(body@) is None) ==> (r matches Err(
            FlowError::Decode(m),
        ) && m@ == body@),
        gen_error_of(body@) matches Some(eo) ==> gen_candidates_of(body@) matches Some(cs) ==> (
        r matches Ok(resp) && err_view(resp.error) == eo && cand_recs(resp.candidates@) == cs),
{
    let error = match parse_gen_error(body) {
        None => {
            return Err(FlowError::Decode(String::from_str(body)));
        },
        Some(e) => e,
    };
    let candidates = match parse_gen_candidates(body) {
        None => {
            return Err(FlowError::Decode(String::from_str(body)));
        },
        Some(c) => c,
    };
    Ok(GeminiResponse { candidates, error })
}

/// Extracts the usable text of a decoded response: a reported service
/// error surfaces verbatim; a response without a candidate, or whose
/// first candidate has no text part, has no usable text; otherwise the
/// first candidate's first text part, trimmed.
pub fn first_text(resp: &GeminiResponse) -> (r: Result<String, FlowError>)
    ensures
        resp.error matches Some(e) ==> (r matches Err(FlowError::Api(m)) && m@ == e.message@),
        resp.error is None && resp.candidates@.len() == 0 ==> r == Err::<String, FlowError>(
            FlowError::EmptyResponse,
        ),
        resp.error is None && resp.candidates@.len() > 0 && part_texts(
            resp.candidates@[0].content.parts@,
        ).len() == 0 ==> r == Err::<String, FlowError>(FlowError::EmptyResponse),
        resp.error is None && resp.candidates@.len() > 0 && part_texts(
            resp.candidates@[0].content.parts@,
        ).len() > 0 ==> (r matches Ok(t) && t@ == trim_spec(
            part_texts(resp.candidates@[0].content.parts@)[0],
        )),
{
    match &resp.error {
        Some(e) => Err(FlowError::Api(e.message.clone())),
        None => {
            if resp.candidates.len() == 0 {
                Err(FlowError::EmptyResponse)
            } else if resp.candidates[0].content.parts.len() == 0 {
                Err(FlowError::EmptyResponse)
            } else {
                Ok(trim(resp.candidates[0].content.parts[0].text.as_str()))
            }
        },
    }
}

/// The usable text of a generation response body: decode, then surface a
/// reported error, demand a candidate with a text part, and trim.
pub fn generation_text_from_body(body: &str) -> (r: Result<String, FlowError>)
    ensures
        (gen_error_of(body@) is None || gen_candidates_of(body@) is None) ==> (r matches Err(
            FlowError::Decode(m),
        ) && m@ == body@),
        gen_error_of(body@) matches Some(Some(msg)) ==> (gen_candidates_of(body@) is Some ==> (
        r matches Err(FlowError::Api(m)) && m@ == msg)),
        gen_error_of(body@) matches Some(None) ==> gen_candidates_of(body@) matches Some(cs) ==> {
            &&& cs.len() == 0 ==> r == Err::<String, FlowError>(FlowError::EmptyResponse)
            &&& cs.len() > 0 && cs[0].len() == 0 ==> r == Err::<String, FlowError>(
                FlowError::EmptyResponse,
            )
            &&& cs.len() > 0 && cs[0].len() > 0 ==> (r matches Ok(t) && t@ == trim_spec(cs[0][0]))
        },
{
    let resp = match response_from_body(body) {
        Err(e) => {
            return Err(e);
        },
        Ok(resp) => resp,
    };
    first_text(&resp)
}

/// What reading the structured fix reply out of a reply text yields: the
/// `filename` and `content` string fields, where the text is a JSON
/// object holding both, else nothing. The result depends on the text
/// alone.
pub uninterp spec fn fix_fields_of(text: Seq<char>) -> Option<(Seq<char>, Seq<char>)>;

/// The view of an extracted fix-field pair.
pub open spec fn fields_opt_view(r: Option<(String, String)>) -> Option<(Seq<char>, Seq<char>)> {
    match r {
        None => None,
        Some(p) => Some((p.0@, p.1@)),
    }
}

/// Relies on `serde_json::from_str`, `Value::get` and `Value::as_str`:
/// yields the `filename` and `content` string fields where the text is a
/// JSON object holding both.
#[verifier::external_body]
fn extract_fix_fields(text: &str) -> (r: Option<(String, String)>)
    ensures
        fields_opt_view(r) == fix_fields_of(text@),
{
    let v: serde_json::Value = serde_json::from_str(text).ok()?;
    let f = v.get("filename")?.as_str()?;
    let c = v.get("content")?.as_str()?;
    Some((f.to_owned(), c.to_owned()))
}

/// The file extension for a target language, lower-cased: the fixed table
/// `typescript` → `ts`, `python` → `py`, `rust` → `rs`, anything else →
/// `js`.
pub open spec fn ext_spec(lang: Seq<char>) -> Seq<char> {
    if lang == "typescript"@ {
        "ts"@
    } else if lang == "python"@ {
        "py"@
    } else if lang == "rust"@ {
        "rs"@
    } else {
        "js"@
    }
}

/// Selects the file extension for the requested target language.
pub fn ext_for(language: &str) -> (r: String)
    ensures
        r@ == ext_spec(lower_of(language@)),
{
    let low = lowercase(language);
    if low == String::from_str("typescript") {
        String::from_str("ts")
    } else if low == String::from_str("python") {
        String::from_str("py")
    } else if low == String::from_str("rust") {
        String::from_str("rs")
    } else {
        String::from_str("js")
    }
}

/// The synthesized file name of the fallback path:
/// `src/<issue_id>-<slug(title)>.<ext>`.
pub open spec fn fallback_name_spec(
    issue_id: Seq<char>,
    title: Seq<char>,
    language: Seq<char>,
) -> Seq<char> {
    "src/"@ + issue_id + "-"@ + slug_spec(lower_of(title)) + "."@ + ext_spec(lower_of(language))
}

/// Synthesizes the fallback file name from the issue identifier, the slug
/// of the issue title, and the language's extension.
pub fn fallback_filename(issue_id: &str, title: &str, language: &str) -> (r: String)
    ensures
        r@ == fallback_name_spec(issue_id@, title@, language@),
{
    let mut s = String::from_str("src/");
    s.append(issue_id);
    s.append("-");
    let slug = slugify(title);
    s.append(slug.as_str());
    s.append(".");
    let ext = ext_for(language);
    s.append(ext.as_str());
    s
}

/// What the fix parse owes for a given reply text: the structured fields
/// verbatim where the text is the instructed JSON object, else the text
/// as content — fence markers stripped — under the synthesized name.
pub open spec fn fix_pair_ok(
    fname: Seq<char>,
    content: Seq<char>,
    text: Seq<char>,
    issue_id: Seq<char>,
    title: Seq<char>,
    language: Seq<char>,
) -> bool {
    match fix_fields_of(text) {
        Some(p) => fname == p.0 && content == p.1,
        None => fname == fallback_name_spec(issue_id, title, language) && content
            == strip_fences_spec(text),
    }
}

/// Parses a generation reply text into the pair (file name, file
/// content). The primary path takes the `filename` and `content` fields
/// of a JSON reply verbatim; the fallback treats the whole text as the
/// content, strips one leading and one trailing code-fence marker, and
/// synthesizes the name.
pub fn fix_from_text(text: &str, issue_id: &str, title: &str, language: &str) -> (r: (
    String,
    String,
))
    ensures
        fix_pair_ok(r.0@, r.1@, text@, issue_id@, title@, language@),
{
    match extract_fix_fields(text) {
        Some(p) => p,
        None => (fallback_filename(issue_id, title, language), strip_fences(text)),
    }
}

/// The full decision path of fix drafting on a response body: decode the
/// response, surface a reported error, demand a candidate with a text
/// part, then parse the reply text into the (file name, content) pair.
pub fn fix_from_body(body: &str, issue_id: &str, title: &str, language: &str) -> (r: Result<
    (String, String),
    FlowError,
>)
    ensures
        (gen_error_of(body@) is None || gen_candidates_of(body@) is None) ==> (r matches Err(
            FlowError::Decode(m),
        ) && m@ == body@),
        gen_error_of(body@) matches Some(Some(msg)) ==> (gen_candidates_of(body@) is Some ==> (
        r matches Err(FlowError::Api(m)) && m@ == msg)),
        gen_error_of(body@) matches Some(None) ==> gen_candidates_of(body@) matches Some(cs) ==> {
            &&& cs.len() == 0 ==> r == Err::<(String, String), FlowError>(FlowError::EmptyResponse)
            &&& cs.len() > 0 && cs[0].len() == 0 ==> r == Err::<(String, String), FlowError>(
                FlowError::EmptyResponse,
            )
            &&& cs.len() > 0 && cs[0].len() > 0 ==> (r matches Ok(p) && fix_pair_ok(
                p.0@,
                p.1@,
                trim_spec(cs[0][0]),
                issue_id@,
                title@,
                language@,
            ))
        },
{
    let text = match generation_text_from_body(body) {
        Err(e) => {
            return Err(e);
        },
        Ok(t) => t,
    };
    Ok(fix_from_text(text.as_str(), issue_id, title, language))
}

/// The instruction sent to the generation service to name a branch for an
/// issue.
pub open spec fn branch_prompt_spec(issue_id: Seq<char>, description: Seq<char>) -> Seq<char> {
    "Crea un nombre de rama para un issue con ID "@ + issue_id + " y descripción '"@ + description
        + "'. \n        El nombre de la rama debe seguir este formato:\n        feature/<issue_id>-<descripcion_corta>\n        - <issue_id> es el número del issue\n        - <descripcion_corta> debe estar en minúsculas, sin acentos ni caracteres especiales, y con guiones en lugar de espacios.\n        Solo responde con el nombre de la rama, nada más."@
}

/// Builds the branch-name instruction for an issue.
pub fn branch_prompt(issue_id: &str, description: &str) -> (r: String)
    ensures
        r@ == branch_prompt_spec(issue_id@, description@),
{
    let mut s = String::from_str("Crea un nombre de rama para un issue con ID ");
    s.append(issue_id);
    s.append(" y descripción '");
    s.append(description);
    s.append(
        "'. \n        El nombre de la rama debe seguir este formato:\n        feature/<issue_id>-<descripcion_corta>\n        - <issue_id> es el número del issue\n        - <descripcion_corta> debe estar en minúsculas, sin acentos ni caracteres especiales, y con guiones en lugar de espacios.\n        Solo responde con el nombre de la rama, nada más.",
    );
    s
}

/// The instruction sent to the generation service to draft one fix file
/// for an issue, demanding a JSON object `{"filename", "content"}` as the
/// only reply.
pub open spec fn fix_prompt_spec(
    issue_id: Seq<char>,
    title: Seq<char>,
    description: Seq<char>,
    language: Seq<char>,
) -> Seq<char> {
    "Actúa como un desarrollador senior. Tienes la información del issue:\n            - ID: "@
        + issue_id + "\n            - Título: "@ + title + "\n            - Descripción: "@
        + description + "\n\n            Genera UN SOLO archivo en lenguaje "@ + language
        + " que solucione este issue. Debe ser un archivo funcional y mínimo que implemente la corrección o componente necesario. Incluye comentarios explicativos en el código.\n\n            **RESPONDE SÓLO** con un objeto JSON válido, sin explicaciones adicionales, con esta forma:\n            {\"filename\":\"relative/path/to/file.ext\",\"content\":\"<archivo completo como string>\"}\n\n            Ejemplo:\n            {\"filename\":\"src/fix-login.js\",\"content\":\"// código aquí\\nfunction ...\"}\n        "@
}

/// Builds the fix-drafting instruction for an issue.
pub fn fix_prompt(issue_id: &str, title: &str, description: &str, language: &str) -> (r: String)
    ensures
        r@ == fix_prompt_spec(issue_id@, title@, description@, language@),
{
    let mut s = String::from_str(
        "Actúa como un desarrollador senior. Tienes la información del issue:\n            - ID: ",
    );
    s.append(issue_id);
    s.append("\n            - Título: ");
    s.append(title);
    s.append("\n            - Descripción: ");
    s.append(description);
    s.append("\n\n            Genera UN SOLO archivo en lenguaje ");
    s.append(language);
    s.append(
        " que solucione este issue. Debe ser un archivo funcional y mínimo que implemente la corrección o componente necesario. Incluye comentarios explicativos en el código.\n\n            **RESPONDE SÓLO** con un objeto JSON válido, sin explicaciones adicionales, con esta forma:\n            {\"filename\":\"relative/path/to/file.ext\",\"content\":\"<archivo completo como string>\"}\n\n            Ejemplo:\n            {\"filename\":\"src/fix-login.js\",\"content\":\"// código aquí\\nfunction ...\"}\n        ",
    );
    s
}

} // verus!

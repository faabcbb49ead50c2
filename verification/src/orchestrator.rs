//! The translation request orchestrator: prompt construction and the
//! model-fallback decision rule.
//!
//! One translation call walks an ordered list of candidate models and issues
//! one inference request per candidate until one succeeds. The HTTP transport
//! lives outside the library; it reports each attempt as an
//! [`AttemptOutcome`], and the functions here decide, in a verified way, what
//! follows: deliver the first success (first-success-wins), abort the whole
//! walk on a transport-level connection failure, or go on to the next
//! candidate and report every tried candidate once the list is exhausted.

use vstd::prelude::*;
use crate::text::{spec_trim, str_eq, trim_str};

verus! {

/// The bound on each candidate's inference request, in seconds: an
/// unresponsive server must not stall the fallback walk indefinitely, so
/// the transport is expected to give up on one candidate after this long
/// and report the attempt as failed.
pub const REQUEST_TIMEOUT_SECS: u64 = 5;

/// The fixed preference order of candidate models: translation-specialised
/// models first, then general models, lightest last. Position one is tried
/// first on every call; nothing is memoised between calls.
pub fn get_translation_models() -> (models: Vec<String>)
    ensures
        models@.len() == 6,
        models@[0]@ == "aya:8b"@,
        models@[1]@ == "qwen2.5:3b"@,
        models@[2]@ == "llama3.3:8b-instruct"@,
        models@[3]@ == "llama3.1:8b"@,
        models@[4]@ == "gemma3:3b"@,
        models@[5]@ == "phi4-mini"@,
{
    let mut models: Vec<String> = Vec::new();
    models.push("aya:8b".to_owned());
    models.push("qwen2.5:3b".to_owned());
    models.push("llama3.3:8b-instruct".to_owned());
    models.push("llama3.1:8b".to_owned());
    models.push("gemma3:3b".to_owned());
    models.push("phi4-mini".to_owned());
    models
}

/// The items laid end to end with `sep` between neighbours.
pub open spec fn spec_join(items: Seq<Seq<char>>, sep: Seq<char>) -> Seq<char>
    decreases items.len(),
{
    if items.len() == 0 {
        Seq::empty()
    } else if items.len() == 1 {
        items[0]
    } else {
        items[0] + sep + spec_join(items.skip(1), sep)
    }
}

proof fn lemma_join_push(items: Seq<Seq<char>>, sep: Seq<char>, x: Seq<char>)
    ensures
        items.len() == 0 ==> spec_join(items.push(x), sep) == x,
        items.len() > 0 ==> spec_join(items.push(x), sep) == spec_join(items, sep) + sep + x,
    decreases items.len(),
{
    let p = items.push(x);
    if items.len() == 0 {
        assert(p[0] == x);
    } else if items.len() == 1 {
        assert(p.skip(1) =~= Seq::empty().push(x));
        lemma_join_push(Seq::empty(), sep, x);
        assert(spec_join(p, sep) == items[0] + sep + x);
    } else {
        assert(p.skip(1) =~= items.skip(1).push(x));
        lemma_join_push(items.skip(1), sep, x);
        assert(items[0] + sep + (spec_join(items.skip(1), sep) + sep + x) =~= (items[0] + sep
            + spec_join(items.skip(1), sep)) + sep + x);
    }
}

/// Concatenate the strings with `sep` between neighbours.
pub fn join_strings(items: &Vec<String>, sep: &str) -> (r: String)
    ensures
        r@ == spec_join(items@.map_values(|s: String| s@), sep@),
{
    let ghost vs = items@.map_values(|s: String| s@);
    let mut out = String::new();
    let mut i: usize = 0;
    while i < items.len()
        invariant
            0 <= i <= items.len(),
            vs == items@.map_values(|s: String| s@),
            vs.len() == items@.len(),
            out@ == spec_join(vs.take(i as int), sep@),
        decreases items.len() - i,
    {
        if i > 0 {
            out.append(sep);
        }
        out.append(items[i].as_str());
        proof {
            lemma_join_push(vs.take(i as int), sep@, vs[i as int]);
            assert(vs.take(i as int).push(vs[i as int]) =~= vs.take(i + 1));
            if i == 0 {
                assert(Seq::<char>::empty() + vs[0] =~= vs[0]);
            }
        }
        i += 1;
    }
    proof {
        assert(vs.take(vs.len() as int) =~= vs);
    }
    out
}

pub struct TranslateRequest {
    pub text: String,
    pub from_lang: String,
    pub to_lang: String,
}

pub struct TranslateResponse {
    /// The model's output, trimmed of leading and trailing whitespace.
    pub translated_text: String,
}

/// Why a translation call failed as a whole.
#[derive(Debug)]
pub enum TranslateError {
    /// The inference server was unreachable at the given address; no further
    /// candidate was tried.
    ConnectionError { address: String },
    /// The server was reachable but no candidate model produced a response;
    /// lists every candidate that was tried, so the caller can name one to
    /// install.
    NoModelAvailable { candidates: Vec<String> },
}

impl TranslateError {
    /// The human-readable message for this error. The no-model case
    /// enumerates every candidate, so the user knows what to install.
    pub fn message(&self) -> (r: String)
        ensures
            *self matches TranslateError::ConnectionError { address } ==> r@
                == "Cannot connect to Ollama server at "@ + address@
                + ". Please make sure Ollama is running."@,
            *self matches TranslateError::NoModelAvailable { candidates } ==> r@
                == "No suitable model available. Please install one of: "@ + spec_join(
                candidates@.map_values(|s: String| s@),
                ", "@,
            ),
    {
        match self {
            TranslateError::ConnectionError { address } => {
                let mut out = "Cannot connect to Ollama server at ".to_owned();
                out.append(address.as_str());
                out.append(". Please make sure Ollama is running.");
                out
            },
            TranslateError::NoModelAvailable { candidates } => {
                let mut out = "No suitable model available. Please install one of: ".to_owned();
                let joined = join_strings(candidates, ", ");
                out.append(joined.as_str());
                out
            },
        }
    }
}

/// The minimal prompt template handed to a model when the caller supplies
/// only the text and the language pair.
pub fn build_translate_prompt(request: &TranslateRequest) -> (r: String)
    ensures
        r@ == "Translate "@ + request.from_lang@ + " to "@ + request.to_lang@ + ":\n"@
            + request.text@,
{
    let mut out = "Translate ".to_owned();
    out.append(request.from_lang.as_str());
    out.append(" to ");
    out.append(request.to_lang.as_str());
    out.append(":\n");
    out.append(request.text.as_str());
    out
}

/// The fully formed instruction prompt used by the enhanced translation
/// command.
pub fn build_enhanced_prompt(from_lang: &str, to_lang: &str, text: &str) -> (r: String)
    ensures
        r@ == "You are an expert professional translator specializing in "@ + from_lang@
            + " to "@ + to_lang@
            + " translation.\n\nInstructions:\n- Translate accurately while preserving context, tone, and cultural nuances\n- Maintain the original formatting and structure\n- For technical terms, use widely accepted translations\n- For proper nouns, keep them as-is unless standard translations exist\n- Return ONLY the translation, no explanations or notes\n\nText to translate:\n"@
            + text@,
{
    let mut out = "You are an expert professional translator specializing in ".to_owned();
    out.append(from_lang);
    out.append(" to ");
    out.append(to_lang);
    out.append(
        " translation.\n\nInstructions:\n- Translate accurately while preserving context, tone, and cultural nuances\n- Maintain the original formatting and structure\n- For technical terms, use widely accepted translations\n- For proper nouns, keep them as-is unless standard translations exist\n- Return ONLY the translation, no explanations or notes\n\nText to translate:\n",
    );
    out.append(text);
    out
}

/// The instruction template for text improvement, chosen by the (exactly
/// spelled) language name; any other name gets the generic English template.
/// The improved text is requested in the same language as the input.
pub open spec fn spec_improvement_prefix(language: Seq<char>) -> Seq<char> {
    if language == "Japanese"@ {
        "あなたは日本語の校正・文章改善のプロフェッショナルです。以下の指示に従ってテキストを改善してください：\n\n指示：\n- より自然で読みやすい日本語に改善\n- 文法的な誤りを修正\n- 表現をより洗練させる\n- 読み手にとって分かりやすくする\n- 改善した文章のみを返す（説明は不要）\n\n改善するテキスト：\n"@
    } else if language == "English"@ {
        "You are a professional English editor and writing improvement specialist. Please improve the following text according to these instructions:\n\nInstructions:\n- Make the English more natural and fluent\n- Fix any grammatical errors\n- Enhance clarity and readability\n- Improve word choice and style\n- Return only the improved text (no explanations needed)\n\nText to improve:\n"@
    } else if language == "Chinese"@ {
        "您是专业的中文文本校对和改进专家。请按照以下指示改进文本：\n\n指示：\n- 使中文更加自然流畅\n- 修正语法错误\n- 提高表达的准确性和可读性\n- 优化用词和语言风格\n- 只返回改进后的文本（无需说明）\n\n需要改进的文本：\n"@
    } else if language == "Korean"@ {
        "당신은 한국어 교정 및 문장 개선 전문가입니다. 다음 지시사항에 따라 텍스트를 개선해주세요:\n\n지시사항:\n- 더 자연스럽고 읽기 쉬운 한국어로 개선\n- 문법적 오류 수정\n- 표현을 더 세련되게 만들기\n- 읽는 사람이 이해하기 쉽게 하기\n- 개선된 문장만 반환 (설명 불필요)\n\n개선할 텍스트:\n"@
    } else if language == "Spanish"@ {
        "Eres un experto profesional en corrección y mejora de textos en español. Por favor, mejora el siguiente texto según estas instrucciones:\n\nInstrucciones:\n- Hacer el español más natural y fluido\n- Corregir errores gramaticales\n- Mejorar la claridad y legibilidad\n- Perfeccionar la elección de palabras y el estilo\n- Devolver solo el texto mejorado (no se necesitan explicaciones)\n\nTexto a mejorar:\n"@
    } else if language == "French"@ {
        "Vous êtes un expert professionnel en correction et amélioration de textes français. Veuillez améliorer le texte suivant selon ces instructions :\n\nInstructions :\n- Rendre le français plus naturel et fluide\n- Corriger les erreurs grammaticales\n- Améliorer la clarté et la lisibilité\n- Perfectionner le choix des mots et le style\n- Retourner uniquement le texte amélioré (aucune explication nécessaire)\n\nTexte à améliorer :\n"@
    } else if language == "German"@ {
        "Sie sind ein professioneller Experte für deutsche Textkorrektur und -verbesserung. Bitte verbessern Sie den folgenden Text gemäß diesen Anweisungen:\n\nAnweisungen:\n- Das Deutsche natürlicher und flüssiger gestalten\n- Grammatikfehler korrigieren\n- Klarheit und Lesbarkeit verbessern\n- Wortwahl und Stil verfeinern\n- Nur den verbesserten Text zurückgeben (keine Erklärungen erforderlich)\n\nZu verbessernder Text:\n"@
    } else {
        "You are a professional text editor and improvement specialist. Please improve the following text to make it more natural, clear, and well-written. Fix any grammatical errors and enhance readability. Return only the improved text without explanations.\n\nText to improve:\n"@
    }
}

/// Build the text-improvement prompt for the given language name.
pub fn build_improvement_prompt(language: &str, text: &str) -> (r: String)
    ensures
        r@ == spec_improvement_prefix(language@) + text@,
{
    let prefix: &str = if str_eq(language, "Japanese") {
        "あなたは日本語の校正・文章改善のプロフェッショナルです。以下の指示に従ってテキストを改善してください：\n\n指示：\n- より自然で読みやすい日本語に改善\n- 文法的な誤りを修正\n- 表現をより洗練させる\n- 読み手にとって分かりやすくする\n- 改善した文章のみを返す（説明は不要）\n\n改善するテキスト：\n"
    } else if str_eq(language, "English") {
        "You are a professional English editor and writing improvement specialist. Please improve the following text according to these instructions:\n\nInstructions:\n- Make the English more natural and fluent\n- Fix any grammatical errors\n- Enhance clarity and readability\n- Improve word choice and style\n- Return only the improved text (no explanations needed)\n\nText to improve:\n"
    } else if str_eq(language, "Chinese") {
        "您是专业的中文文本校对和改进专家。请按照以下指示改进文本：\n\n指示：\n- 使中文更加自然流畅\n- 修正语法错误\n- 提高表达的准确性和可读性\n- 优化用词和语言风格\n- 只返回改进后的文本（无需说明）\n\n需要改进的文本：\n"
    } else if str_eq(language, "Korean") {
        "당신은 한국어 교정 및 문장 개선 전문가입니다. 다음 지시사항에 따라 텍스트를 개선해주세요:\n\n지시사항:\n- 더 자연스럽고 읽기 쉬운 한국어로 개선\n- 문법적 오류 수정\n- 표현을 더 세련되게 만들기\n- 읽는 사람이 이해하기 쉽게 하기\n- 개선된 문장만 반환 (설명 불필요)\n\n개선할 텍스트:\n"
    } else if str_eq(language, "Spanish") {
        "Eres un experto profesional en corrección y mejora de textos en español. Por favor, mejora el siguiente texto según estas instrucciones:\n\nInstrucciones:\n- Hacer el español más natural y fluido\n- Corregir errores gramaticales\n- Mejorar la claridad y legibilidad\n- Perfeccionar la elección de palabras y el estilo\n- Devolver solo el texto mejorado (no se necesitan explicaciones)\n\nTexto a mejorar:\n"
    } else if str_eq(language, "French") {
        "Vous êtes un expert professionnel en correction et amélioration de textes français. Veuillez améliorer le texte suivant selon ces instructions :\n\nInstructions :\n- Rendre le français plus naturel et fluide\n- Corriger les erreurs grammaticales\n- Améliorer la clarté et la lisibilité\n- Perfectionner le choix des mots et le style\n- Retourner uniquement le texte amélioré (aucune explication nécessaire)\n\nTexte à améliorer :\n"
    } else if str_eq(language, "German") {
        "Sie sind ein professioneller Experte für deutsche Textkorrektur und -verbesserung. Bitte verbessern Sie den folgenden Text gemäß diesen Anweisungen:\n\nAnweisungen:\n- Das Deutsche natürlicher und flüssiger gestalten\n- Grammatikfehler korrigieren\n- Klarheit und Lesbarkeit verbessern\n- Wortwahl und Stil verfeinern\n- Nur den verbesserten Text zurückgeben (keine Erklärungen erforderlich)\n\nZu verbessernder Text:\n"
    } else {
        "You are a professional text editor and improvement specialist. Please improve the following text to make it more natural, clear, and well-written. Fix any grammatical errors and enhance readability. Return only the improved text without explanations.\n\nText to improve:\n"
    };
    let mut out = prefix.to_owned();
    out.append(text);
    out
}

/// What one inference attempt against one candidate model came to.
pub enum AttemptOutcome {
    /// A successful response whose output field held `body`.
    Success { body: String },
    /// A transport-level failure: the server itself was unreachable.
    ConnectionFailed,
    /// Any other failure: an HTTP error status, an unparseable response, or
    /// a missing model.
    Failed,
}

/// What a walk over the given attempt outcomes comes to.
pub enum FallbackVerdict {
    /// The first non-`Failed` outcome was a success with this raw body.
    Delivered { body: Seq<char> },
    /// The first non-`Failed` outcome was a connection failure.
    Aborted,
    /// Every outcome was `Failed`.
    Exhausted,
}

/// The verdict of the fallback walk: outcomes are inspected in order, a
/// `Failed` outcome moves on to the next, and the first other outcome ends
/// the walk.
pub open spec fn spec_fallback(outcomes: Seq<AttemptOutcome>) -> FallbackVerdict
    decreases outcomes.len(),
{
    if outcomes.len() == 0 {
        FallbackVerdict::Exhausted
    } else {
        match outcomes[0] {
            AttemptOutcome::Success { body } => FallbackVerdict::Delivered { body: body@ },
            AttemptOutcome::ConnectionFailed => FallbackVerdict::Aborted,
            AttemptOutcome::Failed => spec_fallback(outcomes.skip(1)),
        }
    }
}

/// How many attempts the walk makes: one per outcome up to and including the
/// first non-`Failed` one.
pub open spec fn spec_attempts_used(outcomes: Seq<AttemptOutcome>) -> int
    decreases outcomes.len(),
{
    if outcomes.len() == 0 {
        0
    } else if !(outcomes[0] is Failed) {
        1
    } else {
        1 + spec_attempts_used(outcomes.skip(1))
    }
}

proof fn lemma_fallback_skip(outcomes: Seq<AttemptOutcome>, i: int)
    requires
        0 <= i <= outcomes.len(),
        forall|j: int| 0 <= j < i ==> #[trigger] outcomes[j] is Failed,
    ensures
        spec_fallback(outcomes) == spec_fallback(outcomes.skip(i)),
        spec_attempts_used(outcomes) == i + spec_attempts_used(outcomes.skip(i)),
    decreases i,
{
    if i == 0 {
        assert(outcomes.skip(0) =~= outcomes);
    } else {
        assert(outcomes[0] is Failed);
        let t = outcomes.skip(1);
        assert(forall|j: int| 0 <= j < i - 1 ==> #[trigger] t[j] is Failed);
        lemma_fallback_skip(t, i - 1);
        assert(t.skip(i - 1) =~= outcomes.skip(i));
    }
}

/// The decision for a single attempt: deliver the trimmed success, abort on
/// a connection failure naming the server's address, or try the next
/// candidate.
pub enum FallbackStep {
    Deliver { response: TranslateResponse },
    Abort { error: TranslateError },
    TryNext,
}

/// Decide what one attempt's outcome means for the walk.
pub fn fallback_step(outcome: AttemptOutcome, address: &str) -> (step: FallbackStep)
    ensures
        outcome matches AttemptOutcome::Success { body } ==> (step matches FallbackStep::Deliver {
            response,
        } && response.translated_text@ == spec_trim(body@)),
        outcome is ConnectionFailed ==> (step matches FallbackStep::Abort { error }
            && error matches TranslateError::ConnectionError { address: a } && a@ == address@),
        outcome is Failed ==> step is TryNext,
{
    match outcome {
        AttemptOutcome::Success { body } => FallbackStep::Deliver {
            response: TranslateResponse { translated_text: trim_str(body.as_str()) },
        },
        AttemptOutcome::ConnectionFailed => FallbackStep::Abort {
            error: TranslateError::ConnectionError { address: address.to_owned() },
        },
        AttemptOutcome::Failed => FallbackStep::TryNext,
    }
}

/// Run the whole fallback walk over a recorded outcome per candidate.
/// Returns the overall result together with how many attempts were used:
/// the walk stops at the first success or connection failure and never
/// inspects an outcome past it.
pub fn run_fallback(
    candidates: &Vec<String>,
    outcomes: Vec<AttemptOutcome>,
    address: &str,
) -> (r: (Result<TranslateResponse, TranslateError>, usize))
    requires
        outcomes@.len() == candidates@.len(),
    ensures
        r.1 == spec_attempts_used(outcomes@),
        spec_fallback(outcomes@) matches FallbackVerdict::Delivered { body } ==> (r.0 matches Ok(
            response,
        ) && response.translated_text@ == spec_trim(body)),
        spec_fallback(outcomes@) is Aborted ==> (r.0 matches Err(e)
            && e matches TranslateError::ConnectionError { address: a } && a@ == address@),
        spec_fallback(outcomes@) is Exhausted ==> (r.0 matches Err(e)
            && e matches TranslateError::NoModelAvailable { candidates: c } && c@ == candidates@),
{
    let ghost all = outcomes@;
    let n = outcomes.len();
    let mut i: usize = 0;
    while i < n
        invariant
            0 <= i <= n,
            n == all.len(),
            outcomes@ == all,
            forall|j: int| 0 <= j < i ==> #[trigger] all[j] is Failed,
        decreases n - i,
    {
        let outcome = match &outcomes[i] {
            AttemptOutcome::Success { body } => AttemptOutcome::Success { body: body.clone() },
            AttemptOutcome::ConnectionFailed => AttemptOutcome::ConnectionFailed,
            AttemptOutcome::Failed => AttemptOutcome::Failed,
        };
        proof {
            lemma_fallback_skip(all, i as int);
            assert(all.skip(i as int)[0] == all[i as int]);
        }
        match fallback_step(outcome, address) {
            FallbackStep::Deliver { response } => {
                return (Ok(response), i + 1);
            },
            FallbackStep::Abort { error } => {
                return (Err(error), i + 1);
            },
            FallbackStep::TryNext => {},
        }
        i += 1;
    }
    proof {
        lemma_fallback_skip(all, all.len() as int);
    }
    (Err(TranslateError::NoModelAvailable { candidates: candidates.clone() }), n)
}

/// Law: a connection failure on the very first attempt ends the whole walk
/// at once, after exactly one attempt, whatever the later outcomes would
/// have been.
pub proof fn lemma_connection_failure_aborts(outcomes: Seq<AttemptOutcome>)
    requires
        outcomes.len() > 0,
        outcomes[0] is ConnectionFailed,
    ensures
        spec_fallback(outcomes) is Aborted,
        spec_attempts_used(outcomes) == 1,
{
}

/// Law: when every attempt fails, every candidate is tried — one attempt
/// per candidate, none skipped — and the walk ends exhausted.
pub proof fn lemma_exhausted_walk_tries_every_candidate(outcomes: Seq<AttemptOutcome>)
    requires
        forall|j: int| 0 <= j < outcomes.len() ==> #[trigger] outcomes[j] is Failed,
    ensures
        spec_fallback(outcomes) is Exhausted,
        spec_attempts_used(outcomes) == outcomes.len(),
{
    lemma_fallback_skip(outcomes, outcomes.len() as int);
}

/// Law: when the first two candidates fail and the third succeeds, exactly
/// three attempts are made and the third candidate's output is delivered.
pub proof fn lemma_third_candidate_wins(outcomes: Seq<AttemptOutcome>)
    requires
        outcomes.len() >= 3,
        outcomes[0] is Failed,
        outcomes[1] is Failed,
        outcomes[2] is Success,
    ensures
        spec_attempts_used(outcomes) == 3,
        spec_fallback(outcomes) matches FallbackVerdict::Delivered { body } && body == outcomes[2]
            ->body@,
{
    lemma_fallback_skip(outcomes, 2);
    assert(outcomes.skip(2)[0] == outcomes[2]);
}

} // verus!

use vstd::prelude::*;
use crate::action::Action;
use crate::context::{assign, ActionContext};
use crate::domain::{region_ids, Automation, OCRCapture, OcrMode, Region, ScreenCapture};
use crate::text::{decimal_text, digits, join2, join3, micros_text, render_micros, text_eq};

verus! {

/// Longest continuation prompt accepted, in characters.
pub const MAX_PROMPT_CHARS: usize = 200;

/// A language model's answer. Risks are in millionths: 1000000 stands for 1.0.
#[derive(Debug, Clone)]
pub struct LLMPromptResponse {
    /// Older single-prompt form of the answer.
    pub prompt: String,
    /// Older risk field, in millionths.
    pub risk: u64,
    /// Text to type next when the task is not complete.
    pub continuation_prompt: Option<String>,
    /// Risk of the continuation prompt, in millionths.
    pub continuation_prompt_risk: u64,
    /// Whether the task is finished.
    pub task_complete: bool,
    /// Why the task is finished.
    pub task_complete_reason: Option<String>,
}

impl LLMPromptResponse {
    /// A continuation answer in the older form.
    pub fn simple(prompt: String, risk: u64) -> (r: LLMPromptResponse)
        ensures
            r.prompt@ == prompt@,
            r.risk == risk,
            r.continuation_prompt matches Some(p) && p@ == prompt@,
            r.continuation_prompt_risk == risk,
            !r.task_complete,
            r.task_complete_reason is None,
    {
        LLMPromptResponse {
            prompt: prompt.clone(),
            risk,
            continuation_prompt: Some(prompt),
            continuation_prompt_risk: risk,
            task_complete: false,
            task_complete_reason: None,
        }
    }

    /// An answer that declares the task finished.
    pub fn completed(reason: String) -> (r: LLMPromptResponse)
        ensures
            r.prompt@.len() == 0,
            r.risk == 0,
            r.continuation_prompt is None,
            r.continuation_prompt_risk == 0,
            r.task_complete,
            r.task_complete_reason matches Some(t) && t@ == reason@,
    {
        LLMPromptResponse {
            prompt: String::new(),
            risk: 0,
            continuation_prompt: None,
            continuation_prompt_risk: 0,
            task_complete: true,
            task_complete_reason: Some(reason),
        }
    }

    /// An answer that asks to go on with `prompt`.
    pub fn continuation(prompt: String, risk: u64) -> (r: LLMPromptResponse)
        ensures
            r.prompt@ == prompt@,
            r.risk == risk,
            r.continuation_prompt matches Some(p) && p@ == prompt@,
            r.continuation_prompt_risk == risk,
            !r.task_complete,
            r.task_complete_reason is None,
    {
        LLMPromptResponse {
            prompt: prompt.clone(),
            risk,
            continuation_prompt: Some(prompt),
            continuation_prompt_risk: risk,
            task_complete: false,
            task_complete_reason: None,
        }
    }
}

/// Language model collaborator.
pub trait LLMClient {
    fn generate_prompt(
        &self,
        regions: &[Region],
        region_images: Vec<Vec<u8>>,
        system_prompt: Option<&str>,
        risk_guidance: &str,
    ) -> Result<LLMPromptResponse, String>;
}

/// A client that always gives the same answer.
#[derive(Debug, Clone)]
pub struct MockLLMClient {
    pub mock_response: LLMPromptResponse,
}

impl MockLLMClient {
    /// Answers "continue" with risk 0.1.
    pub fn new() -> (r: MockLLMClient)
        ensures
            r.mock_response.continuation_prompt matches Some(p) && p@ == "continue"@,
            r.mock_response.continuation_prompt_risk == 100000,
            !r.mock_response.task_complete,
    {
        MockLLMClient { mock_response: LLMPromptResponse::continuation(String::from_str("continue"), 100000) }
    }

    pub fn with_response(prompt: String, risk: u64) -> (r: MockLLMClient)
        ensures
            r.mock_response.continuation_prompt matches Some(p) && p@ == prompt@,
            r.mock_response.continuation_prompt_risk == risk,
            !r.mock_response.task_complete,
    {
        MockLLMClient { mock_response: LLMPromptResponse::simple(prompt, risk) }
    }

    pub fn with_completion(reason: String) -> (r: MockLLMClient)
        ensures
            r.mock_response.task_complete,
            r.mock_response.task_complete_reason matches Some(t) && t@ == reason@,
    {
        MockLLMClient { mock_response: LLMPromptResponse::completed(reason) }
    }
}

impl LLMClient for MockLLMClient {
    fn generate_prompt(
        &self,
        regions: &[Region],
        region_images: Vec<Vec<u8>>,
        system_prompt: Option<&str>,
        risk_guidance: &str,
    ) -> Result<LLMPromptResponse, String> {
        Ok(self.mock_response.clone())
    }
}

pub open spec fn risk_guidance_text() -> Seq<char> {
    "Risk Assessment Guidelines:\n- Low risk (0.0-0.33): Safe code changes inside workspace, no deletions, no external communication\n- Medium risk (0.34-0.66): Git pushes, tag deletions, file operations inside workspace\n- High risk (0.67-1.0): Operations outside workspace, elevated privileges, installing software, data transfer outside workspace\n\nConsider the user's risk threshold when choosing the safest viable prompt."@
}

/// The fixed risk guidance handed to the language model.
pub fn build_risk_guidance() -> (r: String)
    ensures
        r@ == risk_guidance_text(),
{
    String::from_str("Risk Assessment Guidelines:\n- Low risk (0.0-0.33): Safe code changes inside workspace, no deletions, no external communication\n- Medium risk (0.34-0.66): Git pushes, tag deletions, file operations inside workspace\n- High risk (0.67-1.0): Operations outside workspace, elevated privileges, installing software, data transfer outside workspace\n\nConsider the user's risk threshold when choosing the safest viable prompt.")
}

/// The PNG file that the image crate writes for an RGBA pixel buffer, when it writes one.
pub uninterp spec fn png_of(width: u32, height: u32, rgba: Seq<u8>) -> Seq<u8>;

/// Relies on image::RgbaImage::from_raw, which takes the buffer exactly when it holds at least
/// 4 * width * height bytes, and on ImageBuffer::write_to with ImageFormat::Png, whose output is
/// a function of the pixels. `None` when the buffer is too small; `Some(Err)` when encoding fails.
#[verifier::external_body]
fn encode_png(width: u32, height: u32, bytes: Vec<u8>) -> (r: Option<Result<Vec<u8>, String>>)
    ensures
        r is Some <==> 4 * (width as int) * (height as int) <= bytes@.len(),
        r matches Some(Ok(png)) ==> png@ == png_of(width, height, bytes@),
{
    let img = image::RgbaImage::from_raw(width, height, bytes)?;
    let mut out: Vec<u8> = Vec::new();
    let written = img.write_to(&mut std::io::Cursor::new(&mut out), image::ImageFormat::Png);
    Some(match written {
        Ok(()) => Ok(out),
        Err(e) => Err(e.to_string()),
    })
}

/// Whether `b` is a PNG file that the image crate writes for some pixel buffer.
pub open spec fn is_png(b: Seq<u8>) -> bool {
    exists|w: u32, h: u32, px: Seq<u8>| png_of(w, h, px) == b
}

/// `code: message`, as a collaborator error reads.
fn backend_error_text(e: &crate::domain::BackendError) -> (r: String)
    ensures
        r@ == e.code@ + ": "@ + e.message@,
{
    join3(e.code, ": ", e.message.as_str())
}

/// Captures each region through `capture` and encodes it as PNG, in order.
pub fn capture_region_images<S: ScreenCapture>(regions: &[Region], capture: &S) -> (r: Result<Vec<Vec<u8>>, String>)
    ensures
        r matches Ok(images) ==> images@.len() == regions@.len() && forall|i: int|
            0 <= i < images@.len() ==> #[trigger] is_png(images@[i]@),
        regions@.len() == 0 ==> (r matches Ok(images) && images@.len() == 0),
{
    let mut images: Vec<Vec<u8>> = Vec::new();
    let n = regions.len();
    let mut i: usize = 0;
    while i < n
        invariant
            n == regions@.len(),
            i <= n,
            images@.len() == i,
            forall|j: int| 0 <= j < images@.len() ==> #[trigger] is_png(images@[j]@),
        decreases n - i,
    {
        let region = &regions[i];
        let frame = match capture.capture_region(region) {
            Ok(f) => f,
            Err(e) => {
                let mut msg = join3("Failed to capture region '", region.id.as_str(), "': ");
                let detail = backend_error_text(&e);
                msg.append(detail.as_str());
                return Err(msg);
            },
        };
        let ghost px = frame.bytes@;
        match encode_png(frame.width, frame.height, frame.bytes) {
            None => {
                return Err(join3("Failed to create image from region '", region.id.as_str(), "'"));
            },
            Some(Err(e)) => {
                let mut msg = join3("Failed to encode PNG for region '", region.id.as_str(), "': ");
                msg.append(e.as_str());
                return Err(msg);
            },
            Some(Ok(png)) => {
                proof {
                    assert(png@ == png_of(frame.width, frame.height, px));
                    assert(is_png(png@));
                }
                images.push(png);
            },
        }
        i = i + 1;
    }
    Ok(images)
}

pub open spec fn json_instructions() -> Seq<char> {
    "\n\nReturn ONLY a JSON object with this exact structure:\n{\n  \"prompt\": \"<your generated prompt text, max 200 chars>\",\n  \"risk\": <risk level 0.0-1.0>\n}\n\nDo not include any explanation or additional text."@
}

pub open spec fn default_system_prompt() -> Seq<char> {
    "You are an AI assistant helping with desktop automation. Generate a safe, concise prompt based on the screen content provided."@
}

/// Settings of the hosted vision-model client; the transport itself lives with the host.
#[derive(Debug, Clone)]
pub struct OpenAIClient {
    pub api_key: String,
    pub api_endpoint: String,
    pub model: String,
}

impl OpenAIClient {
    /// A client from its settings; the endpoint and model have defaults, the key has none.
    pub fn new(api_key: Option<String>, api_endpoint: Option<String>, model: Option<String>) -> (r: Result<OpenAIClient, String>)
        ensures
            api_key is None <==> r is Err,
            r matches Ok(c) ==> c.api_key@ == api_key->Some_0@
                && c.api_endpoint@ == (match api_endpoint {
                    Some(e) => e@,
                    None => "https://api.openai.com/v1/chat/completions"@,
                })
                && c.model@ == (match model {
                    Some(m) => m@,
                    None => "gpt-4-vision-preview"@,
                }),
    {
        let key = match api_key {
            Some(k) => k,
            None => {
                return Err(String::from_str("OPENAI_API_KEY environment variable not set"));
            },
        };
        let api_endpoint = match api_endpoint {
            Some(e) => e,
            None => String::from_str("https://api.openai.com/v1/chat/completions"),
        };
        let model = match model {
            Some(m) => m,
            None => String::from_str("gpt-4-vision-preview"),
        };
        Ok(OpenAIClient { api_key: key, api_endpoint, model })
    }

    /// The instruction text sent with every request: the system prompt (or a default), the risk
    /// guidance, and the required answer format.
    pub fn build_system_message(&self, system_prompt: Option<&str>, risk_guidance: &str) -> (r: String)
        ensures
            r@ == (match system_prompt {
                Some(p) => p@,
                None => default_system_prompt(),
            }) + "\n\n"@ + risk_guidance@ + json_instructions(),
    {
        let base = match system_prompt {
            Some(p) => p,
            None => "You are an AI assistant helping with desktop automation. Generate a safe, concise prompt based on the screen content provided.",
        };
        let mut s = join3(base, "\n\n", risk_guidance);
        s.append("\n\nReturn ONLY a JSON object with this exact structure:\n{\n  \"prompt\": \"<your generated prompt text, max 200 chars>\",\n  \"risk\": <risk level 0.0-1.0>\n}\n\nDo not include any explanation or additional text.");
        s
    }
}

/// Whether some region carries `id`.
pub open spec fn known(all: Seq<Region>, id: Seq<char>) -> bool {
    exists|j: int| 0 <= j < all.len() && #[trigger] all[j].id@ == id
}

/// The first of `ids`, from index `i` on, that no region carries.
pub open spec fn first_unknown(all: Seq<Region>, ids: Seq<Seq<char>>, i: int) -> Option<Seq<char>>
    decreases ids.len() - i,
{
    if i < 0 || i >= ids.len() {
        None
    } else if !known(all, ids[i]) {
        Some(ids[i])
    } else {
        first_unknown(all, ids, i + 1)
    }
}

pub open spec fn not_found_message(id: Seq<char>) -> Seq<char> {
    "Region '"@ + id + "' not found"@
}

pub open spec fn id_texts(v: Seq<String>) -> Seq<Seq<char>> {
    v.map_values(|s: String| s@)
}

/// A copy of a region, field by field.
pub fn copy_region(r: &Region) -> (c: Region)
    ensures
        c == *r,
{
    let name = match &r.name {
        Some(n) => Some(n.clone()),
        None => None,
    };
    Region { id: r.id.clone(), rect: r.rect, name }
}

/// The regions named by `ids`, in that order; an unknown id is an error.
pub fn resolve_regions(ids: &Vec<String>, all: &[Region]) -> (r: Result<Vec<Region>, String>)
    ensures
        match r {
            Ok(found) => first_unknown(all@, id_texts(ids@), 0) is None && found@.len() == ids@.len()
                && forall|i: int| 0 <= i < found@.len() ==> #[trigger] found@[i].id@ == ids@[i]@,
            Err(msg) => first_unknown(all@, id_texts(ids@), 0) matches Some(id) && msg@ == not_found_message(id),
        },
{
    let mut found: Vec<Region> = Vec::new();
    let n = ids.len();
    let mut i: usize = 0;
    while i < n
        invariant
            n == ids@.len(),
            i <= n,
            found@.len() == i,
            forall|j: int| 0 <= j < found@.len() ==> #[trigger] found@[j].id@ == ids@[j]@,
            first_unknown(all@, id_texts(ids@), 0) == first_unknown(all@, id_texts(ids@), i as int),
        decreases n - i,
    {
        let id = ids[i].as_str();
        proof {
            assert(id_texts(ids@)[i as int] == id@);
        }
        let mut j: usize = 0;
        let mut hit: Option<usize> = None;
        while j < all.len() && hit.is_none()
            invariant
                j <= all@.len(),
                hit matches Some(h) ==> h < all@.len() && all@[h as int].id@ == id@,
                hit is None ==> forall|k: int| 0 <= k < j ==> all@[k].id@ != id@,
            decreases all@.len() - j + (if hit is None { 1int } else { 0int }),
        {
            if text_eq(all[j].id.as_str(), id) {
                hit = Some(j);
            } else {
                j = j + 1;
            }
        }
        match hit {
            Some(h) => {
                proof {
                    assert(known(all@, id@));
                }
                found.push(copy_region(&all[h]));
            },
            None => {
                proof {
                    assert(!known(all@, id@));
                }
                return Err(join3("Region '", id, "' not found"));
            },
        }
        i = i + 1;
    }
    Ok(found)
}

/// The reason recorded when the model declares the task finished.
pub open spec fn completion_reason(resp: LLMPromptResponse) -> Seq<char> {
    match resp.task_complete_reason {
        Some(r) => r@,
        None => "LLM signaled task complete"@,
    }
}

/// One region's part of the local-mode prompt.
pub open spec fn region_part(id: Seq<char>, text: Seq<char>) -> Seq<char> {
    "Region '"@ + id + "': "@ + text
}

/// The parts of the first `n` regions, separated by blank lines.
pub open spec fn joined_parts(ids: Seq<Seq<char>>, ts: Seq<Seq<char>>, n: nat) -> Seq<char>
    decreases n,
{
    if n == 0 {
        Seq::empty()
    } else if n == 1 {
        region_part(ids[0], ts[0])
    } else {
        joined_parts(ids, ts, (n - 1) as nat) + "\n\n"@ + region_part(ids[n - 1], ts[n - 1])
    }
}

/// The local-mode system prompt: the configured prompt (or a default), a heading, then each
/// region's text.
pub open spec fn local_prompt_text(system_prompt: Option<Seq<char>>, ids: Seq<Seq<char>>, ts: Seq<Seq<char>>) -> Seq<char> {
    (match system_prompt {
        Some(p) => p,
        None => "You are an AI assistant helping with desktop automation."@,
    }) + "\n\nExtracted text from screen regions:\n"@ + joined_parts(ids, ts, ids.len())
}

pub open spec fn opt_text(s: Option<String>) -> Option<Seq<char>> {
    match s {
        Some(p) => Some(p@),
        None => None,
    }
}

/// The system prompt for local mode, from the configured prompt and the text read from each
/// region (`texts[i]` from `regions[i]`).
pub fn local_system_prompt(system_prompt: Option<&str>, regions: &[Region], texts: &[String]) -> (r: String)
    requires
        texts@.len() == regions@.len(),
    ensures
        r@ == local_prompt_text(
            match system_prompt {
                Some(p) => Some(p@),
                None => None,
            },
            region_ids(regions@),
            crate::guardrails::texts(texts@),
        ),
{
    let ghost ids = region_ids(regions@);
    let ghost ts = crate::guardrails::texts(texts@);
    let mut joined = String::new();
    let n = regions.len();
    let mut i: usize = 0;
    while i < n
        invariant
            n == regions@.len(),
            texts@.len() == n,
            ids == region_ids(regions@),
            ts == crate::guardrails::texts(texts@),
            i <= n,
            joined@ == joined_parts(ids, ts, i as nat),
        decreases n - i,
    {
        let ghost before = joined@;
        if i > 0 {
            joined.append("\n\n");
        }
        joined.append("Region '");
        joined.append(regions[i].id.as_str());
        joined.append("': ");
        joined.append(texts[i].as_str());
        proof {
            assert(ids[i as int] == regions@[i as int].id@);
            assert(ts[i as int] == texts@[i as int]@);
            if i == 0 {
                assert(joined@ =~= region_part(ids[0], ts[0]));
            } else {
                assert(joined@ =~= before + "\n\n"@ + region_part(ids[i as int], ts[i as int]));
            }
        }
        i = i + 1;
    }
    let base = match system_prompt {
        Some(p) => p,
        None => "You are an AI assistant helping with desktop automation.",
    };
    let mut prompt = join2(base, "\n\nExtracted text from screen regions:\n");
    prompt.append(joined.as_str());
    proof {
        assert(ids.len() == n);
    }
    prompt
}

/// Captures regions, asks the language model for the next prompt, and stores it in the context,
/// or records the model's request to stop. The risk threshold is in millionths.
pub struct LLMPromptGenerationAction<S, L, O> {
    pub region_ids: Vec<String>,
    pub risk_threshold: u64,
    pub system_prompt: Option<String>,
    pub variable_name: String,
    pub ocr_mode: OcrMode,
    pub all_regions: Vec<Region>,
    pub capture: S,
    pub llm_client: L,
    pub ocr: O,
}

impl<S, L, O> LLMPromptGenerationAction<S, L, O> {
    /// Why an answer is refused, if it is.
    pub open spec fn rejection(&self, resp: LLMPromptResponse) -> Option<Seq<char>> {
        if resp.task_complete {
            None
        } else {
            match resp.continuation_prompt {
                None => Some("LLM did not provide continuation_prompt"@),
                Some(p) => if resp.continuation_prompt_risk > self.risk_threshold {
                    Some("Risk threshold exceeded: "@ + micros_text(resp.continuation_prompt_risk as nat)
                        + " > "@ + micros_text(self.risk_threshold as nat) + " (generated prompt: '"@ + p@
                        + "')"@)
                } else if p@.len() == 0 {
                    Some("LLM returned empty continuation_prompt"@)
                } else if p@.len() > MAX_PROMPT_CHARS {
                    Some("LLM prompt too long: "@ + digits(p@.len()) + " characters (max 200)"@)
                } else {
                    None
                },
            }
        }
    }

    /// How an answer changes the context, from `before` to `after`.
    pub open spec fn applied(&self, resp: LLMPromptResponse, before: ActionContext, after: ActionContext) -> bool {
        if resp.task_complete {
            let es = match resp.continuation_prompt {
                Some(p) => assign(before.entries(), self.variable_name@, p@),
                None => before.entries(),
            };
            &&& after.should_terminate
            &&& after.reason() == Some(completion_reason(resp))
            &&& after.entries() == assign(es, "task_complete"@, "true"@)
        } else if self.rejection(resp) is None {
            let p = resp.continuation_prompt->Some_0;
            &&& after.entries() == assign(
                assign(
                    assign(before.entries(), self.variable_name@, p@),
                    "continuation_prompt_risk"@,
                    micros_text(resp.continuation_prompt_risk as nat),
                ),
                "task_complete"@,
                "false"@,
            )
            &&& after.should_terminate == before.should_terminate
            &&& after.termination_reason == before.termination_reason
        } else {
            after == before
        }
    }
}

impl<S: ScreenCapture, L: LLMClient, O: OCRCapture> LLMPromptGenerationAction<S, L, O> {
    /// Acts on the model's answer: a finished task requests termination; otherwise the prompt
    /// must exist, be within the risk threshold, and hold 1 to 200 characters. A prompt over the
    /// risk threshold also raises the automation backend's alarm.
    pub fn apply_response<A: Automation>(&self, resp: &LLMPromptResponse, automation: &A, context: &mut ActionContext) -> (r: Result<(), String>)
        requires
            old(context).wf(),
        ensures
            final(context).wf(),
            self.applied(*resp, *old(context), *final(context)),
            match r {
                Ok(()) => self.rejection(*resp) is None,
                Err(m) => self.rejection(*resp) == Some(m@),
            },
    {
        if resp.task_complete {
            let reason = match &resp.task_complete_reason {
                Some(t) => t.clone(),
                None => String::from_str("LLM signaled task complete"),
            };
            context.request_termination(reason.as_str());
            if let Some(p) = &resp.continuation_prompt {
                context.set(self.variable_name.as_str(), p.as_str());
            }
            context.set("task_complete", "true");
            return Ok(());
        }
        let p = match &resp.continuation_prompt {
            Some(p) => p,
            None => {
                return Err(String::from_str("LLM did not provide continuation_prompt"));
            },
        };
        let risk = resp.continuation_prompt_risk;
        if risk > self.risk_threshold {
            let mut msg = join2("Risk threshold exceeded: ", render_micros(risk).as_str());
            msg.append(" > ");
            msg.append(render_micros(self.risk_threshold).as_str());
            msg.append(" (generated prompt: '");
            msg.append(p.as_str());
            msg.append("')");
            automation.alarm(msg.as_str());
            return Err(msg);
        }
        let n = p.as_str().unicode_len();
        if n == 0 {
            return Err(String::from_str("LLM returned empty continuation_prompt"));
        }
        if n > MAX_PROMPT_CHARS {
            return Err(join3("LLM prompt too long: ", decimal_text(n as u64).as_str(), " characters (max 200)"));
        }
        context.set(self.variable_name.as_str(), p.as_str());
        context.set("continuation_prompt_risk", render_micros(risk).as_str());
        context.set("task_complete", "false");
        Ok(())
    }

    /// Reads the text of each region in order and builds the local-mode system prompt from it;
    /// the first failed read is an error.
    fn local_prompt(&self, regions: &Vec<Region>) -> (r: Result<String, String>)
        ensures
            r matches Ok(p) ==> exists|ts: Seq<Seq<char>>| ts.len() == regions@.len()
                && p@ == #[trigger] local_prompt_text(opt_text(self.system_prompt), region_ids(regions@), ts),
    {
        let mut texts: Vec<String> = Vec::new();
        let n = regions.len();
        let mut i: usize = 0;
        while i < n
            invariant
                n == regions@.len(),
                i <= n,
                texts@.len() == i,
            decreases n - i,
        {
            let region = &regions[i];
            let h = self.capture.hash_region(region, 1);
            let text = match self.ocr.extract_text_cached(region, h) {
                Ok(t) => t,
                Err(e) => {
                    let mut msg = join3("OCR extraction failed for '", region.id.as_str(), "': ");
                    msg.append(e.message.as_str());
                    return Err(msg);
                },
            };
            texts.push(text);
            i = i + 1;
        }
        let base = match &self.system_prompt {
            Some(p) => Some(p.as_str()),
            None => None,
        };
        let prompt = local_system_prompt(base, regions.as_slice(), texts.as_slice());
        proof {
            assert(crate::guardrails::texts(texts@).len() == regions@.len());
        }
        Ok(prompt)
    }
}

impl<S: ScreenCapture, L: LLMClient, O: OCRCapture> Action for LLMPromptGenerationAction<S, L, O> {
    open spec fn label(&self) -> Seq<char> {
        "LLMPromptGeneration"@
    }

    fn name(&self) -> (r: &'static str) {
        "LLMPromptGeneration"
    }

    fn execute<A: Automation>(&self, automation: &A, context: &mut ActionContext) -> (r: Result<(), String>)
        ensures
            first_unknown(self.all_regions@, id_texts(self.region_ids@), 0) matches Some(id) ==> (r matches Err(m)
                && m@ == not_found_message(id)),
            r is Err ==> *final(context) == *old(context),
            r is Ok ==> exists|resp: LLMPromptResponse|
                self.rejection(resp) is None && #[trigger] self.applied(resp, *old(context), *final(context)),
    {
        self.perform(automation, context)
    }
}

impl<S: ScreenCapture, L: LLMClient, O: OCRCapture> LLMPromptGenerationAction<S, L, O> {
    /// Resolves the regions, reads them (text in local mode, images in vision mode), asks the
    /// model, and acts on its answer. An unknown region id fails first; every failure leaves the
    /// context as it was.
    pub fn perform<A: Automation>(&self, automation: &A, context: &mut ActionContext) -> (r: Result<(), String>)
        requires
            old(context).wf(),
        ensures
            final(context).wf(),
            first_unknown(self.all_regions@, id_texts(self.region_ids@), 0) matches Some(id) ==> (r matches Err(m)
                && m@ == not_found_message(id)),
            r is Err ==> *final(context) == *old(context),
            r is Ok ==> exists|resp: LLMPromptResponse|
                self.rejection(resp) is None && #[trigger] self.applied(resp, *old(context), *final(context)),
    {
        let regions = match resolve_regions(&self.region_ids, self.all_regions.as_slice()) {
            Ok(rs) => rs,
            Err(e) => {
                return Err(e);
            },
        };
        let guidance = build_risk_guidance();
        let response = match self.ocr_mode {
            OcrMode::Local => {
                let prompt = match self.local_prompt(&regions) {
                    Ok(p) => p,
                    Err(e) => {
                        return Err(e);
                    },
                };
                self.llm_client.generate_prompt(regions.as_slice(), Vec::new(), Some(prompt.as_str()), guidance.as_str())
            },
            OcrMode::Vision => {
                let images = match capture_region_images(regions.as_slice(), &self.capture) {
                    Ok(im) => im,
                    Err(e) => {
                        return Err(e);
                    },
                };
                let prompt = match &self.system_prompt {
                    Some(p) => Some(p.as_str()),
                    None => None,
                };
                self.llm_client.generate_prompt(regions.as_slice(), images, prompt, guidance.as_str())
            },
        };
        match response {
            Ok(resp) => self.apply_response(&resp, automation, context),
            Err(e) => Err(e),
        }
    }
}

} // verus!

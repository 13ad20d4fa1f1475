use vstd::prelude::*;
use crate::action::Action;
use crate::context::ActionContext;
use crate::domain::{Automation, OCRCapture, Region, ScreenCapture};
use crate::llm::{build_risk_guidance, capture_region_images, copy_region, known, LLMClient, LLMPromptResponse};
use crate::text::{check_regex, join2, regex_compiles, regex_is_match, regex_matches, text_eq};

verus! {

/// Whether some listed variable is set to a value that the pattern matches.
pub open spec fn context_hit(ctx: ActionContext, vars: Seq<Seq<char>>, pattern: Seq<char>) -> bool {
    exists|i: int| 0 <= i < vars.len() && match #[trigger] ctx.var(vars[i]) {
        Some(v) => regex_matches(pattern, v),
        None => false,
    }
}

/// `after` is `before` with a termination request for `reason` and the same variables.
pub open spec fn requested(before: ActionContext, after: ActionContext, reason: Seq<char>) -> bool {
    &&& after.should_terminate
    &&& after.reason() == Some(reason)
    &&& after.variables == before.variables
}

pub open spec fn termination_reason_for(condition: Seq<char>) -> Seq<char> {
    "TerminationCheck: "@ + condition
}

/// Checks whether the task should end, by context variables, by screen text or by asking the
/// language model, and records a termination request when it should.
pub struct TerminationCheckAction<S, L, O> {
    /// One of "context", "ocr" and "ai_query".
    pub check_type: String,
    pub context_vars: Vec<String>,
    pub ocr_region_ids: Vec<String>,
    pub ai_query_prompt: Option<String>,
    /// The pattern looked for, in the "context" and "ocr" modes.
    pub termination_condition: String,
    pub all_regions: Vec<Region>,
    pub capture: S,
    pub llm_client: L,
    pub ocr: O,
}

impl<S, L, O> TerminationCheckAction<S, L, O> {
    pub open spec fn vars(&self) -> Seq<Seq<char>> {
        self.context_vars@.map_values(|s: String| s@)
    }

    /// The state after a check that found its condition, or before one that did not.
    pub open spec fn outcome(&self, before: ActionContext, after: ActionContext, met: bool) -> bool {
        if met {
            requested(before, after, termination_reason_for(self.termination_condition@))
        } else {
            after == before
        }
    }
}

impl<S: ScreenCapture, L: LLMClient, O: OCRCapture> TerminationCheckAction<S, L, O> {
    fn context_matches(&self, context: &ActionContext) -> (r: Result<bool, String>)
        requires
            context.wf(),
        ensures
            match r {
                Ok(met) => regex_compiles(self.termination_condition@) && met == context_hit(
                    *context,
                    self.vars(),
                    self.termination_condition@,
                ),
                Err(m) => !regex_compiles(self.termination_condition@) && exists|e: Seq<char>|
                    m@ == "Invalid termination condition regex: "@ + e,
            },
    {
        let pattern = self.termination_condition.as_str();
        match check_regex(pattern) {
            Ok(()) => {},
            Err(e) => {
                return Err(join2("Invalid termination condition regex: ", e.as_str()));
            },
        }
        let n = self.context_vars.len();
        let mut i: usize = 0;
        while i < n
            invariant
                n == self.context_vars@.len(),
                i <= n,
                context.wf(),
                regex_compiles(pattern@),
                pattern@ == self.termination_condition@,
                forall|j: int| 0 <= j < i ==> match #[trigger] context.var(self.vars()[j]) {
                    Some(v) => !regex_matches(pattern@, v),
                    None => true,
                },
            decreases n - i,
        {
            let name = self.context_vars[i].as_str();
            proof {
                assert(self.vars()[i as int] == name@);
            }
            if let Some(v) = context.get(name) {
                if regex_is_match(pattern, v) {
                    return Ok(true);
                }
            }
            i = i + 1;
        }
        Ok(false)
    }

    /// The text of the first region carrying each listed id, in list order; ids that name no
    /// region and reads that fail give no text.
    fn screen_texts(&self) -> (r: Vec<String>)
        ensures
            (forall|i: int| 0 <= i < self.ocr_region_ids@.len() ==> !known(self.all_regions@, #[trigger] self.ocr_region_ids@[i]@))
                ==> r@.len() == 0,
    {
        let mut texts: Vec<String> = Vec::new();
        let n = self.ocr_region_ids.len();
        let mut i: usize = 0;
        while i < n
            invariant
                n == self.ocr_region_ids@.len(),
                i <= n,
                (forall|k: int| 0 <= k < i ==> !known(self.all_regions@, #[trigger] self.ocr_region_ids@[k]@))
                    ==> texts@.len() == 0,
            decreases n - i,
        {
            let id = self.ocr_region_ids[i].as_str();
            let ghost before = texts@;
            let mut j: usize = 0;
            while j < self.all_regions.len()
                invariant
                    j <= self.all_regions@.len(),
                    id@ == self.ocr_region_ids@[i as int]@,
                    texts@.len() > before.len() ==> known(self.all_regions@, id@),
                    texts@.len() >= before.len(),
                decreases self.all_regions@.len() - j,
            {
                let region = &self.all_regions[j];
                if text_eq(region.id.as_str(), id) {
                    let h = self.capture.hash_region(region, 1);
                    if let Ok(text) = self.ocr.extract_text_cached(region, h) {
                        texts.push(text);
                        proof {
                            assert(self.all_regions@[j as int].id@ == id@);
                        }
                    }
                    break;
                }
                j = j + 1;
            }
            i = i + 1;
        }
        texts
    }

    /// Asks the model the configured query about all regions.
    fn ask_model(&self) -> (r: Result<LLMPromptResponse, String>)
        ensures
            self.ai_query_prompt is None ==> (r matches Err(m) && m@
                == "ai_query_prompt required for ai_query check_type"@),
    {
        let query = match &self.ai_query_prompt {
            Some(q) => q.as_str(),
            None => {
                return Err(String::from_str("ai_query_prompt required for ai_query check_type"));
            },
        };
        let mut regions: Vec<Region> = Vec::new();
        let n = self.all_regions.len();
        let mut i: usize = 0;
        while i < n
            invariant
                n == self.all_regions@.len(),
                i <= n,
            decreases n - i,
        {
            regions.push(copy_region(&self.all_regions[i]));
            i = i + 1;
        }
        let images = match capture_region_images(regions.as_slice(), &self.capture) {
            Ok(im) => im,
            Err(e) => {
                return Err(e);
            },
        };
        let guidance = build_risk_guidance();
        self.llm_client.generate_prompt(regions.as_slice(), images, Some(query), guidance.as_str())
    }

    /// Records the result of a check: a met condition requests termination with the
    /// condition as reason, an unmet one changes nothing.
    pub fn conclude(&self, met: bool, context: &mut ActionContext)
        requires
            old(context).wf(),
        ensures
            final(context).wf(),
            self.outcome(*old(context), *final(context), met),
    {
        if met {
            let reason = join2("TerminationCheck: ", self.termination_condition.as_str());
            context.request_termination(reason.as_str());
        }
    }

    /// Runs the check selected by `check_type`; an unknown type is an error. A failure leaves
    /// the context as it was.
    pub fn perform(&self, context: &mut ActionContext) -> (r: Result<(), String>)
        requires
            old(context).wf(),
        ensures
            final(context).wf(),
            r is Err ==> *final(context) == *old(context),
            r is Ok ==> self.outcome(*old(context), *final(context), true)
                || self.outcome(*old(context), *final(context), false),
            self.check_type@ == "context"@ ==> {
                &&& (r is Ok <==> regex_compiles(self.termination_condition@))
                &&& r is Ok ==> self.outcome(
                    *old(context),
                    *final(context),
                    context_hit(*old(context), self.vars(), self.termination_condition@),
                )
            },
            self.check_type@ == "ocr"@ ==> {
                &&& (r is Ok <==> regex_compiles(self.termination_condition@))
                &&& r is Ok ==> exists|texts: Seq<Seq<char>>| {
                    &&& #[trigger] self.outcome(*old(context), *final(context), text_hit(self.termination_condition@, texts))
                    &&& self.lists_no_region() ==> texts.len() == 0
                }
            },
            self.check_type@ == "ai_query"@ && self.ai_query_prompt is None ==> (r matches Err(m) && m@
                == "ai_query_prompt required for ai_query check_type"@),
            self.check_type@ == "ai_query"@ && r is Ok ==> exists|resp: LLMPromptResponse|
                #[trigger] self.outcome(*old(context), *final(context), resp.task_complete),
            self.check_type@ != "context"@ && self.check_type@ != "ocr"@ && self.check_type@ != "ai_query"@
                ==> (r matches Err(m) && m@ == "Unknown check_type: "@ + self.check_type@),
    {
        proof {
            reveal_strlit("context");
            reveal_strlit("ocr");
            reveal_strlit("ai_query");
            assert("ai_query"@[0] != "context"@[0]);
            assert("ai_query"@[0] != "ocr"@[0]);
            assert("ocr"@[0] != "context"@[0]);
        }
        let kind = self.check_type.as_str();
        if text_eq(kind, "context") {
            match self.context_matches(context) {
                Ok(met) => {
                    self.conclude(met, context);
                    Ok(())
                },
                Err(e) => Err(e),
            }
        } else if text_eq(kind, "ocr") {
            let pattern = self.termination_condition.as_str();
            match check_regex(pattern) {
                Ok(()) => {},
                Err(e) => {
                    return Err(join2("Invalid termination condition regex: ", e.as_str()));
                },
            }
            let texts = self.screen_texts();
            let met = any_text_matches(pattern, texts.as_slice());
            self.conclude(met, context);
            proof {
                let ts = texts_of(texts@);
                assert(text_hit(pattern@, ts) == met) by {
                    if met {
                        let i = choose|i: int| 0 <= i < texts@.len() && regex_matches(pattern@, #[trigger] texts@[i]@);
                        assert(ts[i] == texts@[i]@);
                    }
                    if text_hit(pattern@, ts) {
                        let i = choose|i: int| 0 <= i < ts.len() && regex_matches(pattern@, #[trigger] ts[i]);
                        assert(ts[i] == texts@[i]@);
                    }
                }
                assert(self.outcome(*old(context), *context, text_hit(self.termination_condition@, ts)));
            }
            Ok(())
        } else if text_eq(kind, "ai_query") {
            match self.ask_model() {
                Ok(resp) => {
                    self.conclude(resp.task_complete, context);
                    Ok(())
                },
                Err(e) => Err(e),
            }
        } else {
            Err(join2("Unknown check_type: ", kind))
        }
    }

    /// Whether no listed id names a region.
    pub open spec fn lists_no_region(&self) -> bool {
        forall|i: int| 0 <= i < self.ocr_region_ids@.len() ==> !known(self.all_regions@, #[trigger] self.ocr_region_ids@[i]@)
    }
}

/// Whether the pattern matches one of the texts.
pub open spec fn text_hit(pattern: Seq<char>, texts: Seq<Seq<char>>) -> bool {
    exists|i: int| 0 <= i < texts.len() && regex_matches(pattern, #[trigger] texts[i])
}

pub open spec fn texts_of(v: Seq<String>) -> Seq<Seq<char>> {
    v.map_values(|s: String| s@)
}

/// Whether the valid pattern matches one of the texts.
pub fn any_text_matches(pattern: &str, texts: &[String]) -> (r: bool)
    requires
        regex_compiles(pattern@),
    ensures
        r == exists|i: int| 0 <= i < texts@.len() && regex_matches(pattern@, #[trigger] texts@[i]@),
{
    let n = texts.len();
    let mut i: usize = 0;
    while i < n
        invariant
            n == texts@.len(),
            i <= n,
            regex_compiles(pattern@),
            forall|k: int| 0 <= k < i ==> !regex_matches(pattern@, #[trigger] texts@[k]@),
        decreases n - i,
    {
        if regex_is_match(pattern, texts[i].as_str()) {
            return true;
        }
        i = i + 1;
    }
    false
}

impl<S: ScreenCapture, L: LLMClient, O: OCRCapture> Action for TerminationCheckAction<S, L, O> {
    open spec fn label(&self) -> Seq<char> {
        "TerminationCheck"@
    }

    fn name(&self) -> (r: &'static str) {
        "TerminationCheck"
    }

    fn execute<A: Automation>(&self, automation: &A, context: &mut ActionContext) -> (r: Result<(), String>)
        ensures
            r is Err ==> *final(context) == *old(context),
            r is Ok ==> self.outcome(*old(context), *final(context), true)
                || self.outcome(*old(context), *final(context), false),
            self.check_type@ == "context"@ ==> {
                &&& (r is Ok <==> regex_compiles(self.termination_condition@))
                &&& r is Ok ==> self.outcome(
                    *old(context),
                    *final(context),
                    context_hit(*old(context), self.vars(), self.termination_condition@),
                )
            },
            self.check_type@ == "ocr"@ ==> {
                &&& (r is Ok <==> regex_compiles(self.termination_condition@))
                &&& r is Ok ==> exists|texts: Seq<Seq<char>>| {
                    &&& #[trigger] self.outcome(*old(context), *final(context), text_hit(self.termination_condition@, texts))
                    &&& self.lists_no_region() ==> texts.len() == 0
                }
            },
            self.check_type@ == "ai_query"@ && self.ai_query_prompt is None ==> (r matches Err(m) && m@
                == "ai_query_prompt required for ai_query check_type"@),
            self.check_type@ == "ai_query"@ && r is Ok ==> exists|resp: LLMPromptResponse|
                #[trigger] self.outcome(*old(context), *final(context), resp.task_complete),
            self.check_type@ != "context"@ && self.check_type@ != "ocr"@ && self.check_type@ != "ai_query"@
                ==> (r matches Err(m) && m@ == "Unknown check_type: "@ + self.check_type@),
    {
        self.perform(context)
    }
}

} // verus!

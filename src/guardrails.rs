use vstd::prelude::*;
use crate::domain::OcrMode;
use crate::text::{
    check_regex, contains_text, join2, occurs_in, regex_compiles, regex_is_match, regex_matches,
    upper_of, uppercase,
};

verus! {

/// Safety policy of a run; durations are in milliseconds.
#[derive(Debug, Clone)]
pub struct Guardrails {
    /// Minimum time between two activations.
    pub cooldown_ms: u64,
    /// Longest run before the monitor stops itself.
    pub max_runtime_ms: Option<u64>,
    /// Most activations inside any rolling hour.
    pub max_activations_per_hour: Option<u32>,
    /// Longest time since the last action start before the run counts as stalled.
    pub heartbeat_timeout_ms: Option<u64>,
    pub ocr_mode: OcrMode,
    /// Patterns whose presence on screen means the task succeeded.
    pub success_keywords: Vec<String>,
    /// Patterns whose presence on screen means the task failed.
    pub failure_keywords: Vec<String>,
    /// A further pattern that ends the run.
    pub ocr_termination_pattern: Option<String>,
    /// Regions scanned for these patterns.
    pub ocr_region_ids: Vec<String>,
}

impl Default for Guardrails {
    fn default() -> (r: Guardrails)
        ensures
            r.cooldown_ms == 0,
            r.max_runtime_ms is None,
            r.max_activations_per_hour is None,
            r.heartbeat_timeout_ms is None,
            r.ocr_mode == OcrMode::Local,
            r.success_keywords@.len() == 0,
            r.failure_keywords@.len() == 0,
            r.ocr_termination_pattern is None,
            r.ocr_region_ids@.len() == 0,
    {
        Guardrails {
            cooldown_ms: 0,
            max_runtime_ms: None,
            max_activations_per_hour: None,
            heartbeat_timeout_ms: None,
            ocr_mode: OcrMode::Local,
            success_keywords: Vec::new(),
            failure_keywords: Vec::new(),
            ocr_termination_pattern: None,
            ocr_region_ids: Vec::new(),
        }
    }
}

/// The reason reported when `kw` is found in `text`, if it is: a valid pattern is matched as a
/// regex, any other keyword as a case-insensitive substring.
pub open spec fn keyword_hit(kw: Seq<char>, text: Seq<char>, kind: Seq<char>) -> Option<Seq<char>> {
    if regex_compiles(kw) {
        if regex_matches(kw, text) {
            Some("ocr_"@ + kind + "_pattern: "@ + kw)
        } else {
            None
        }
    } else if occurs_in(upper_of(kw), upper_of(text)) {
        Some("ocr_"@ + kind + "_keyword: "@ + kw)
    } else {
        None
    }
}

/// The first keyword of `kws`, from index `i` on, found in `text`.
pub open spec fn first_hit(kws: Seq<Seq<char>>, i: int, text: Seq<char>, kind: Seq<char>) -> Option<Seq<char>>
    decreases kws.len() - i,
{
    if i < 0 || i >= kws.len() {
        None
    } else {
        match keyword_hit(kws[i], text, kind) {
            Some(r) => Some(r),
            None => first_hit(kws, i + 1, text, kind),
        }
    }
}

/// The text of an optional string.
pub open spec fn opt_view(o: Option<String>) -> Option<Seq<char>> {
    match o {
        Some(s) => Some(s@),
        None => None,
    }
}

pub open spec fn opt_texts(v: Seq<Option<String>>) -> Seq<Option<Seq<char>>> {
    v.map_values(|o: Option<String>| opt_view(o))
}

pub open spec fn texts(v: Seq<String>) -> Seq<Seq<char>> {
    v.map_values(|s: String| s@)
}

impl Guardrails {
    /// Whether the text scan before activation is configured at all.
    pub open spec fn scans_text(&self) -> bool {
        &&& self.ocr_mode == OcrMode::Local
        &&& self.ocr_region_ids@.len() > 0
        &&& (self.success_keywords@.len() > 0 || self.failure_keywords@.len() > 0
            || self.ocr_termination_pattern is Some)
    }

    /// Why `text` ends the run: success keywords first, then failure keywords, then the
    /// termination pattern.
    pub open spec fn verdict(&self, text: Seq<char>) -> Option<Seq<char>> {
        match first_hit(texts(self.success_keywords@), 0, text, "success"@) {
            Some(r) => Some(r),
            None => match first_hit(texts(self.failure_keywords@), 0, text, "failure"@) {
                Some(r) => Some(r),
                None => match self.ocr_termination_pattern {
                    Some(p) => if regex_compiles(p@) && regex_matches(p@, text) {
                        Some("ocr_termination_pattern: "@ + p@)
                    } else {
                        None
                    },
                    None => None,
                },
            },
        }
    }

    /// The first verdict among the texts from index `i` on; missing texts are skipped.
    pub open spec fn first_verdict_from(&self, ts: Seq<Option<Seq<char>>>, i: int) -> Option<Seq<char>>
        decreases ts.len() - i,
    {
        if i < 0 || i >= ts.len() {
            None
        } else {
            match ts[i] {
                Some(t) => match self.verdict(t) {
                    Some(r) => Some(r),
                    None => self.first_verdict_from(ts, i + 1),
                },
                None => self.first_verdict_from(ts, i + 1),
            }
        }
    }

    /// The first verdict among texts read in order, skipping missing ones.
    pub fn first_verdict(&self, texts: &[Option<String>]) -> (r: Option<String>)
        ensures
            opt_view(r) == self.first_verdict_from(opt_texts(texts@), 0),
            match r {
                Some(reason) => exists|text: Seq<char>| self.verdict(text) == Some(reason@),
                None => true,
            },
    {
        let ghost ts = opt_texts(texts@);
        let n = texts.len();
        let mut i: usize = 0;
        while i < n
            invariant
                n == texts@.len(),
                ts == opt_texts(texts@),
                i <= n,
                self.first_verdict_from(ts, 0) == self.first_verdict_from(ts, i as int),
            decreases n - i,
        {
            proof {
                assert(ts[i as int] == opt_view(texts@[i as int]));
            }
            match &texts[i] {
                Some(t) => {
                    let v = self.text_verdict(t.as_str());
                    if v.is_some() {
                        return v;
                    }
                },
                None => {},
            }
            i = i + 1;
        }
        None
    }

    pub fn scans_text_exec(&self) -> (r: bool)
        ensures
            r == self.scans_text(),
    {
        self.ocr_mode == OcrMode::Local && self.ocr_region_ids.len() > 0 && (
        self.success_keywords.len() > 0 || self.failure_keywords.len() > 0
            || self.ocr_termination_pattern.is_some())
    }

    fn scan_keywords(kws: &Vec<String>, text: &str, text_upper: &str, kind: &str) -> (r: Option<String>)
        requires
            text_upper@ == upper_of(text@),
        ensures
            match r {
                Some(s) => first_hit(texts(kws@), 0, text@, kind@) == Some(s@),
                None => first_hit(texts(kws@), 0, text@, kind@) is None,
            },
    {
        let n = kws.len();
        let mut i: usize = 0;
        while i < n
            invariant
                n == kws@.len(),
                i <= n,
                text_upper@ == upper_of(text@),
                first_hit(texts(kws@), 0, text@, kind@) == first_hit(texts(kws@), i as int, text@, kind@),
            decreases n - i,
        {
            let kw = kws[i].as_str();
            proof {
                assert(texts(kws@)[i as int] == kw@);
            }
            let valid = check_regex(kw);
            match valid {
                Ok(()) => {
                    if regex_is_match(kw, text) {
                        let head = join2("ocr_", kind);
                        let mut s = join2(head.as_str(), "_pattern: ");
                        s.append(kw);
                        proof {
                            assert(s@ == "ocr_"@ + kind@ + "_pattern: "@ + kw@);
                            assert(keyword_hit(kw@, text@, kind@) == Some(s@));
                            assert(first_hit(texts(kws@), i as int, text@, kind@) == Some(s@));
                        }
                        return Some(s);
                    }
                },
                Err(_) => {
                    let kw_upper = uppercase(kw);
                    let kw_upper_str = kw_upper.as_str();
                    let found = contains_text(text_upper, kw_upper_str);
                    proof {
                        assert(kw_upper_str@ == upper_of(kw@));
                        assert(text_upper@ == upper_of(text@));
                        assert(!regex_compiles(kw@));
                        assert(found == occurs_in(upper_of(kw@), upper_of(text@)));
                    }
                    if found {
                        let head = join2("ocr_", kind);
                        let mut s = join2(head.as_str(), "_keyword: ");
                        s.append(kw);
                        proof {
                            assert(s@ == "ocr_"@ + kind@ + "_keyword: "@ + kw@);
                            assert(keyword_hit(kw@, text@, kind@) == Some(s@));
                            assert(first_hit(texts(kws@), i as int, text@, kind@) == Some(s@));
                        }
                        return Some(s);
                    }
                },
            }
            proof {
                assert(keyword_hit(kw@, text@, kind@) is None);
                assert(first_hit(texts(kws@), i as int, text@, kind@) == first_hit(texts(kws@), i + 1, text@, kind@));
            }
            i = i + 1;
        }
        None
    }

    /// Why the text `text`, read from a watched region, ends the run, if it does.
    pub fn text_verdict(&self, text: &str) -> (r: Option<String>)
        ensures
            match r {
                Some(s) => self.verdict(text@) == Some(s@),
                None => self.verdict(text@) is None,
            },
    {
        let upper = uppercase(text);
        let hit = Guardrails::scan_keywords(&self.success_keywords, text, upper.as_str(), "success");
        if hit.is_some() {
            return hit;
        }
        let hit = Guardrails::scan_keywords(&self.failure_keywords, text, upper.as_str(), "failure");
        if hit.is_some() {
            return hit;
        }
        match &self.ocr_termination_pattern {
            Some(p) => {
                if check_regex(p.as_str()).is_ok() {
                    if regex_is_match(p.as_str(), text) {
                        return Some(join2("ocr_termination_pattern: ", p.as_str()));
                    }
                }
                None
            },
            None => None,
        }
    }
}

} // verus!

use vstd::prelude::*;

use crate::text::{from_chars, is_blank, str_equal, to_chars, trim_spec};

verus! {

/// The kind of phrase a prompt asks for.
#[derive(Clone, Copy, Debug, PartialEq, Eq, Hash, Structural)]
pub enum PromptCategory {
    NeutralStatement,
    Question,
    NumbersAndDates,
    NamesAndProperNouns,
    Plosives,
    Sibilants,
    SustainedVowels,
    ShortPhrase,
    LongPhrase,
    ExpressiveVariation,
    Custom,
}

/// One phrase to record.
#[derive(Clone, Debug)]
pub struct VoicePrompt {
    pub id: String,
    pub text: String,
    pub category: PromptCategory,
    pub recommended_take_duration_ms: Option<u64>,
}

impl VoicePrompt {
    /// An equal copy of the prompt.
    pub fn clone_prompt(&self) -> (copy: Self)
        ensures
            copy == *self,
    {
        VoicePrompt {
            id: self.id.clone(),
            text: self.text.clone(),
            category: self.category,
            recommended_take_duration_ms: self.recommended_take_duration_ms,
        }
    }
}

/// A versioned collection of prompts.
#[derive(Clone, Debug)]
pub struct PromptPack {
    pub id: String,
    pub version: u32,
    pub display_name: String,
    pub language: String,
    pub prompts: Vec<VoicePrompt>,
}

/// The pack (and version) that a dataset was recorded against.
#[derive(Clone, Debug)]
pub struct PromptPackReference {
    pub id: String,
    pub version: u32,
}

/// The number of prompts in the built-in English pack.
pub const BUILT_IN_PROMPT_COUNT: usize = 12;

/// The identifier of the built-in English prompt at position `i`.
pub open spec fn built_in_prompt_id(i: int) -> Seq<char> {
    if i == 0 {
        "en-neutral-01"@
    } else if i == 1 {
        "en-question-01"@
    } else if i == 2 {
        "en-numbers-01"@
    } else if i == 3 {
        "en-names-01"@
    } else if i == 4 {
        "en-plosives-01"@
    } else if i == 5 {
        "en-sibilants-01"@
    } else if i == 6 {
        "en-vowel-01"@
    } else if i == 7 {
        "en-short-01"@
    } else if i == 8 {
        "en-long-01"@
    } else if i == 9 {
        "en-expression-01"@
    } else if i == 10 {
        "en-neutral-02"@
    } else if i == 11 {
        "en-question-02"@
    } else {
        Seq::empty()
    }
}

/// The text of the built-in English prompt at position `i`.
pub open spec fn built_in_prompt_text(i: int) -> Seq<char> {
    if i == 0 {
        "The window is open to the morning air."@
    } else if i == 1 {
        "Would you like some tea before we leave?"@
    } else if i == 2 {
        "Our appointment is at nine fifteen on July twenty-third."@
    } else if i == 3 {
        "Maya and Daniel visited Bangkok together."@
    } else if i == 4 {
        "Bright paper boats bob beside the pier."@
    } else if i == 5 {
        "Soft summer breezes crossed the silent street."@
    } else if i == 6 {
        "Hold the sound: ah, ee, oh."@
    } else if i == 7 {
        "I am ready now."@
    } else if i == 8 {
        "After the rain stopped, we walked slowly home and talked about the day."@
    } else if i == 9 {
        "That is wonderful news!"@
    } else if i == 10 {
        "A small lamp glows beside the book."@
    } else if i == 11 {
        "Did you remember to lock the garden gate?"@
    } else {
        Seq::empty()
    }
}

/// The category of the built-in English prompt at position `i`.
pub open spec fn built_in_prompt_category(i: int) -> PromptCategory {
    if i == 0 {
        PromptCategory::NeutralStatement
    } else if i == 1 {
        PromptCategory::Question
    } else if i == 2 {
        PromptCategory::NumbersAndDates
    } else if i == 3 {
        PromptCategory::NamesAndProperNouns
    } else if i == 4 {
        PromptCategory::Plosives
    } else if i == 5 {
        PromptCategory::Sibilants
    } else if i == 6 {
        PromptCategory::SustainedVowels
    } else if i == 7 {
        PromptCategory::ShortPhrase
    } else if i == 8 {
        PromptCategory::LongPhrase
    } else if i == 9 {
        PromptCategory::ExpressiveVariation
    } else if i == 10 {
        PromptCategory::NeutralStatement
    } else if i == 11 {
        PromptCategory::Question
    } else {
        PromptCategory::Custom
    }
}

/// `pack` is the built-in English pack.
pub open spec fn is_built_in_english_pack(pack: PromptPack) -> bool {
    &&& pack.id@ == "mam-english-core"@
    &&& pack.version == 1
    &&& pack.display_name@ == "Mam English Core"@
    &&& pack.language@ == "English"@
    &&& pack.prompts@.len() == BUILT_IN_PROMPT_COUNT
    &&& forall|i: int|
        0 <= i < BUILT_IN_PROMPT_COUNT ==> {
            &&& (#[trigger] pack.prompts@[i]).id@ == built_in_prompt_id(i)
            &&& pack.prompts@[i].text@ == built_in_prompt_text(i)
            &&& pack.prompts@[i].category == built_in_prompt_category(i)
            &&& pack.prompts@[i].recommended_take_duration_ms == Some(6_000u64)
        }
}

fn prompt(id: &str, text: &str, category: PromptCategory) -> (p: VoicePrompt)
    ensures
        p.id@ == id@,
        p.text@ == text@,
        p.category == category,
        p.recommended_take_duration_ms == Some(6_000u64),
{
    VoicePrompt {
        id: from_chars(to_chars(id).as_slice()),
        text: from_chars(to_chars(text).as_slice()),
        category,
        recommended_take_duration_ms: Some(6_000),
    }
}

/// The built-in English prompt pack.
pub fn built_in_english_pack() -> (pack: PromptPack)
    ensures
        is_built_in_english_pack(pack),
{
    let mut prompts: Vec<VoicePrompt> = Vec::new();
    prompts.push(prompt("en-neutral-01", "The window is open to the morning air.", PromptCategory::NeutralStatement));
    prompts.push(prompt("en-question-01", "Would you like some tea before we leave?", PromptCategory::Question));
    prompts.push(prompt("en-numbers-01", "Our appointment is at nine fifteen on July twenty-third.", PromptCategory::NumbersAndDates));
    prompts.push(prompt("en-names-01", "Maya and Daniel visited Bangkok together.", PromptCategory::NamesAndProperNouns));
    prompts.push(prompt("en-plosives-01", "Bright paper boats bob beside the pier.", PromptCategory::Plosives));
    prompts.push(prompt("en-sibilants-01", "Soft summer breezes crossed the silent street.", PromptCategory::Sibilants));
    prompts.push(prompt("en-vowel-01", "Hold the sound: ah, ee, oh.", PromptCategory::SustainedVowels));
    prompts.push(prompt("en-short-01", "I am ready now.", PromptCategory::ShortPhrase));
    prompts.push(prompt("en-long-01", "After the rain stopped, we walked slowly home and talked about the day.", PromptCategory::LongPhrase));
    prompts.push(prompt("en-expression-01", "That is wonderful news!", PromptCategory::ExpressiveVariation));
    prompts.push(prompt("en-neutral-02", "A small lamp glows beside the book.", PromptCategory::NeutralStatement));
    prompts.push(prompt("en-question-02", "Did you remember to lock the garden gate?", PromptCategory::Question));
    PromptPack {
        id: from_chars(to_chars("mam-english-core").as_slice()),
        version: 1,
        display_name: from_chars(to_chars("Mam English Core").as_slice()),
        language: from_chars(to_chars("English").as_slice()),
        prompts,
    }
}

/// No two prompts of the built-in English pack share an identifier.
pub proof fn lemma_built_in_prompt_ids_distinct()
    ensures
        forall|i: int, j: int|
            0 <= i < j < BUILT_IN_PROMPT_COUNT ==> built_in_prompt_id(i) != built_in_prompt_id(j),
{
    reveal_strlit("en-neutral-01");
    reveal_strlit("en-question-01");
    reveal_strlit("en-numbers-01");
    reveal_strlit("en-names-01");
    reveal_strlit("en-plosives-01");
    reveal_strlit("en-sibilants-01");
    reveal_strlit("en-vowel-01");
    reveal_strlit("en-short-01");
    reveal_strlit("en-long-01");
    reveal_strlit("en-expression-01");
    reveal_strlit("en-neutral-02");
    reveal_strlit("en-question-02");
    assert forall|i: int, j: int| 0 <= i < j < BUILT_IN_PROMPT_COUNT implies built_in_prompt_id(i)
        != built_in_prompt_id(j) by {
        if i == 0 && j == 1 {
            assert(built_in_prompt_id(0).len() != built_in_prompt_id(1).len());
        }
        if i == 0 && j == 2 {
            assert(built_in_prompt_id(0)[4] != built_in_prompt_id(2)[4]);
        }
        if i == 0 && j == 3 {
            assert(built_in_prompt_id(0).len() != built_in_prompt_id(3).len());
        }
        if i == 0 && j == 4 {
            assert(built_in_prompt_id(0).len() != built_in_prompt_id(4).len());
        }
        if i == 0 && j == 5 {
            assert(built_in_prompt_id(0).len() != built_in_prompt_id(5).len());
        }
        if i == 0 && j == 6 {
            assert(built_in_prompt_id(0).len() != built_in_prompt_id(6).len());
        }
        if i == 0 && j == 7 {
            assert(built_in_prompt_id(0).len() != built_in_prompt_id(7).len());
        }
        if i == 0 && j == 8 {
            assert(built_in_prompt_id(0).len() != built_in_prompt_id(8).len());
        }
        if i == 0 && j == 9 {
            assert(built_in_prompt_id(0).len() != built_in_prompt_id(9).len());
        }
        if i == 0 && j == 10 {
            assert(built_in_prompt_id(0)[12] != built_in_prompt_id(10)[12]);
        }
        if i == 0 && j == 11 {
            assert(built_in_prompt_id(0).len() != built_in_prompt_id(11).len());
        }
        if i == 1 && j == 2 {
            assert(built_in_prompt_id(1).len() != built_in_prompt_id(2).len());
        }
        if i == 1 && j == 3 {
            assert(built_in_prompt_id(1).len() != built_in_prompt_id(3).len());
        }
        if i == 1 && j == 4 {
            assert(built_in_prompt_id(1)[3] != built_in_prompt_id(4)[3]);
        }
        if i == 1 && j == 5 {
            assert(built_in_prompt_id(1).len() != built_in_prompt_id(5).len());
        }
        if i == 1 && j == 6 {
            assert(built_in_prompt_id(1).len() != built_in_prompt_id(6).len());
        }
        if i == 1 && j == 7 {
            assert(built_in_prompt_id(1).len() != built_in_prompt_id(7).len());
        }
        if i == 1 && j == 8 {
            assert(built_in_prompt_id(1).len() != built_in_prompt_id(8).len());
        }
        if i == 1 && j == 9 {
            assert(built_in_prompt_id(1).len() != built_in_prompt_id(9).len());
        }
        if i == 1 && j == 10 {
            assert(built_in_prompt_id(1).len() != built_in_prompt_id(10).len());
        }
        if i == 1 && j == 11 {
            assert(built_in_prompt_id(1)[13] != built_in_prompt_id(11)[13]);
        }
        if i == 2 && j == 3 {
            assert(built_in_prompt_id(2).len() != built_in_prompt_id(3).len());
        }
        if i == 2 && j == 4 {
            assert(built_in_prompt_id(2).len() != built_in_prompt_id(4).len());
        }
        if i == 2 && j == 5 {
            assert(built_in_prompt_id(2).len() != built_in_prompt_id(5).len());
        }
        if i == 2 && j == 6 {
            assert(built_in_prompt_id(2).len() != built_in_prompt_id(6).len());
        }
        if i == 2 && j == 7 {
            assert(built_in_prompt_id(2).len() != built_in_prompt_id(7).len());
        }
        if i == 2 && j == 8 {
            assert(built_in_prompt_id(2).len() != built_in_prompt_id(8).len());
        }
        if i == 2 && j == 9 {
            assert(built_in_prompt_id(2).len() != built_in_prompt_id(9).len());
        }
        if i == 2 && j == 10 {
            assert(built_in_prompt_id(2)[4] != built_in_prompt_id(10)[4]);
        }
        if i == 2 && j == 11 {
            assert(built_in_prompt_id(2).len() != built_in_prompt_id(11).len());
        }
        if i == 3 && j == 4 {
            assert(built_in_prompt_id(3).len() != built_in_prompt_id(4).len());
        }
        if i == 3 && j == 5 {
            assert(built_in_prompt_id(3).len() != built_in_prompt_id(5).len());
        }
        if i == 3 && j == 6 {
            assert(built_in_prompt_id(3)[3] != built_in_prompt_id(6)[3]);
        }
        if i == 3 && j == 7 {
            assert(built_in_prompt_id(3)[3] != built_in_prompt_id(7)[3]);
        }
        if i == 3 && j == 8 {
            assert(built_in_prompt_id(3).len() != built_in_prompt_id(8).len());
        }
        if i == 3 && j == 9 {
            assert(built_in_prompt_id(3).len() != built_in_prompt_id(9).len());
        }
        if i == 3 && j == 10 {
            assert(built_in_prompt_id(3).len() != built_in_prompt_id(10).len());
        }
        if i == 3 && j == 11 {
            assert(built_in_prompt_id(3).len() != built_in_prompt_id(11).len());
        }
        if i == 4 && j == 5 {
            assert(built_in_prompt_id(4).len() != built_in_prompt_id(5).len());
        }
        if i == 4 && j == 6 {
            assert(built_in_prompt_id(4).len() != built_in_prompt_id(6).len());
        }
        if i == 4 && j == 7 {
            assert(built_in_prompt_id(4).len() != built_in_prompt_id(7).len());
        }
        if i == 4 && j == 8 {
            assert(built_in_prompt_id(4).len() != built_in_prompt_id(8).len());
        }
        if i == 4 && j == 9 {
            assert(built_in_prompt_id(4).len() != built_in_prompt_id(9).len());
        }
        if i == 4 && j == 10 {
            assert(built_in_prompt_id(4).len() != built_in_prompt_id(10).len());
        }
        if i == 4 && j == 11 {
            assert(built_in_prompt_id(4)[3] != built_in_prompt_id(11)[3]);
        }
        if i == 5 && j == 6 {
            assert(built_in_prompt_id(5).len() != built_in_prompt_id(6).len());
        }
        if i == 5 && j == 7 {
            assert(built_in_prompt_id(5).len() != built_in_prompt_id(7).len());
        }
        if i == 5 && j == 8 {
            assert(built_in_prompt_id(5).len() != built_in_prompt_id(8).len());
        }
        if i == 5 && j == 9 {
            assert(built_in_prompt_id(5).len() != built_in_prompt_id(9).len());
        }
        if i == 5 && j == 10 {
            assert(built_in_prompt_id(5).len() != built_in_prompt_id(10).len());
        }
        if i == 5 && j == 11 {
            assert(built_in_prompt_id(5).len() != built_in_prompt_id(11).len());
        }
        if i == 6 && j == 7 {
            assert(built_in_prompt_id(6)[3] != built_in_prompt_id(7)[3]);
        }
        if i == 6 && j == 8 {
            assert(built_in_prompt_id(6).len() != built_in_prompt_id(8).len());
        }
        if i == 6 && j == 9 {
            assert(built_in_prompt_id(6).len() != built_in_prompt_id(9).len());
        }
        if i == 6 && j == 10 {
            assert(built_in_prompt_id(6).len() != built_in_prompt_id(10).len());
        }
        if i == 6 && j == 11 {
            assert(built_in_prompt_id(6).len() != built_in_prompt_id(11).len());
        }
        if i == 7 && j == 8 {
            assert(built_in_prompt_id(7).len() != built_in_prompt_id(8).len());
        }
        if i == 7 && j == 9 {
            assert(built_in_prompt_id(7).len() != built_in_prompt_id(9).len());
        }
        if i == 7 && j == 10 {
            assert(built_in_prompt_id(7).len() != built_in_prompt_id(10).len());
        }
        if i == 7 && j == 11 {
            assert(built_in_prompt_id(7).len() != built_in_prompt_id(11).len());
        }
        if i == 8 && j == 9 {
            assert(built_in_prompt_id(8).len() != built_in_prompt_id(9).len());
        }
        if i == 8 && j == 10 {
            assert(built_in_prompt_id(8).len() != built_in_prompt_id(10).len());
        }
        if i == 8 && j == 11 {
            assert(built_in_prompt_id(8).len() != built_in_prompt_id(11).len());
        }
        if i == 9 && j == 10 {
            assert(built_in_prompt_id(9).len() != built_in_prompt_id(10).len());
        }
        if i == 9 && j == 11 {
            assert(built_in_prompt_id(9).len() != built_in_prompt_id(11).len());
        }
        if i == 10 && j == 11 {
            assert(built_in_prompt_id(10).len() != built_in_prompt_id(11).len());
        }
    }
}

/// A pack is usable: it has prompts, every prompt has visible text, and no two
/// prompts share an identifier.
pub open spec fn prompt_pack_valid(prompts: Seq<VoicePrompt>) -> bool {
    &&& prompts.len() > 0
    &&& forall|i: int| 0 <= i < prompts.len() ==> trim_spec((#[trigger] prompts[i]).text@).len() > 0
    &&& forall|i: int, j: int|
        0 <= i < j < prompts.len() ==> (#[trigger] prompts[i]).id@ != (#[trigger] prompts[j]).id@
}

/// Whether a prompt pack is usable.
pub fn validate_prompt_pack(pack: &PromptPack) -> (valid: bool)
    ensures
        valid == prompt_pack_valid(pack.prompts@),
{
    let prompts = &pack.prompts;
    if prompts.len() == 0 {
        return false;
    }
    let mut i: usize = 0;
    while i < prompts.len()
        invariant
            i <= prompts@.len(),
            prompts@ == pack.prompts@,
            prompts@.len() > 0,
            forall|k: int| 0 <= k < i ==> trim_spec((#[trigger] prompts@[k]).text@).len() > 0,
            forall|k: int, l: int|
                0 <= k < l < i ==> (#[trigger] prompts@[k]).id@ != (#[trigger] prompts@[l]).id@,
        decreases prompts@.len() - i,
    {
        if is_blank(prompts[i].text.as_str()) {
            assert(trim_spec(prompts@[i as int].text@).len() == 0);
            return false;
        }
        let mut k: usize = 0;
        while k < i
            invariant
                k <= i < prompts@.len(),
                prompts@ == pack.prompts@,
                forall|m: int| 0 <= m < k ==> (#[trigger] prompts@[m]).id@ != prompts@[i as int].id@,
            decreases i - k,
        {
            if str_equal(prompts[k].id.as_str(), prompts[i].id.as_str()) {
                assert(prompts@[k as int].id@ == prompts@[i as int].id@);
                return false;
            }
            k = k + 1;
        }
        i = i + 1;
    }
    true
}

} // verus!

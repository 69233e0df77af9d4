//! Tokens that the replies of an agent's life have cost.

use vstd::prelude::*;

use crate::events::number_view;
use crate::json::{
    json_object, json_plain, json_set, json_text, json_to_string, json_u64, reads_as, JsonView,
};
use crate::messages::TokenUsage;
use crate::text::{same_text, text_seq};

verus! {

/// Sums of tokens. A sum that `u64` cannot hold stays at the largest number that it can.
pub struct CostState {
    input_tokens: u64,
    output_tokens: u64,
    cache_read_tokens: u64,
    cache_write_tokens: u64,
    reasoning_tokens: u64,
    provider_calls: u64,
    counted: Vec<String>,
}

/// Sums of tokens, and the ids of the messages that they count.
#[verifier::ext_equal]
pub struct CostView {
    pub input_tokens: u64,
    pub output_tokens: u64,
    pub cache_read_tokens: u64,
    pub cache_write_tokens: u64,
    pub reasoning_tokens: u64,
    pub provider_calls: u64,
    pub counted: Set<Seq<char>>,
}

/// The sum of two numbers, or the largest number that `u64` can hold.
pub open spec fn capped_sum(a: u64, b: u64) -> u64 {
    if a + b > u64::MAX {
        u64::MAX
    } else {
        (a + b) as u64
    }
}

/// The sums once the message `id` is counted.
pub open spec fn cost_plus(cost: CostView, id: Seq<char>, usage: TokenUsage) -> CostView {
    CostView {
        input_tokens: capped_sum(cost.input_tokens, usage.input_tokens),
        output_tokens: capped_sum(cost.output_tokens, usage.output_tokens),
        cache_read_tokens: capped_sum(cost.cache_read_tokens, usage.cache_read_tokens),
        cache_write_tokens: capped_sum(cost.cache_write_tokens, usage.cache_write_tokens),
        reasoning_tokens: capped_sum(cost.reasoning_tokens, usage.reasoning_tokens),
        provider_calls: capped_sum(cost.provider_calls, 1),
        counted: cost.counted.insert(id),
    }
}

/// The sums after a message: it counts if it reports a usage and was not counted before.
pub open spec fn cost_after(cost: CostView, id: Seq<char>, usage: Option<TokenUsage>) -> CostView {
    match usage {
        Some(usage) => if cost.counted.contains(id) {
            cost
        } else {
            cost_plus(cost, id, usage)
        },
        None => cost,
    }
}

/// The sums before any message.
pub open spec fn no_cost() -> CostView {
    CostView {
        input_tokens: 0,
        output_tokens: 0,
        cache_read_tokens: 0,
        cache_write_tokens: 0,
        reasoning_tokens: 0,
        provider_calls: 0,
        counted: Set::empty(),
    }
}

/// The object in which the host sees the sums.
pub open spec fn cost_view(cost: CostView) -> JsonView {
    JsonView::Object(
        map![
            "totalInputTokens"@ => number_view(cost.input_tokens as int),
            "totalOutputTokens"@ => number_view(cost.output_tokens as int),
            "totalCacheReadTokens"@ => number_view(cost.cache_read_tokens as int),
            "totalCacheWriteTokens"@ => number_view(cost.cache_write_tokens as int),
            "totalReasoningTokens"@ => number_view(cost.reasoning_tokens as int),
            "providerCalls"@ => number_view(cost.provider_calls as int),
        ],
    )
}

impl View for CostState {
    type V = CostView;

    closed spec fn view(&self) -> CostView {
        CostView {
            input_tokens: self.input_tokens,
            output_tokens: self.output_tokens,
            cache_read_tokens: self.cache_read_tokens,
            cache_write_tokens: self.cache_write_tokens,
            reasoning_tokens: self.reasoning_tokens,
            provider_calls: self.provider_calls,
            counted: text_seq(self.counted@).to_set(),
        }
    }
}

impl CostState {
    pub fn new() -> (cost: CostState)
        ensures
            cost@ == no_cost(),
    {
        let cost = CostState {
            input_tokens: 0,
            output_tokens: 0,
            cache_read_tokens: 0,
            cache_write_tokens: 0,
            reasoning_tokens: 0,
            provider_calls: 0,
            counted: Vec::new(),
        };
        assert(cost@.counted =~= Set::empty());
        cost
    }

    /// Whether the message `id` was counted.
    fn is_counted(&self, id: &str) -> (found: bool)
        ensures
            found == self@.counted.contains(id@),
    {
        let mut i: usize = 0;
        while i < self.counted.len()
            invariant
                i <= self.counted@.len(),
                forall|j: int| 0 <= j < i ==> (#[trigger] self.counted@[j])@ != id@,
            decreases self.counted@.len() - i,
        {
            if same_text(self.counted[i].as_str(), id) {
                assert(text_seq(self.counted@)[i as int] == id@);
                return true;
            }
            i += 1;
        }
        assert forall|j: int| 0 <= j < text_seq(self.counted@).len() implies #[trigger] text_seq(
            self.counted@,
        )[j] != id@ by {
            assert(self.counted@[j]@ != id@);
        }
        false
    }

    /// Counts a message that reports a usage, unless it was counted before.
    pub fn record(&mut self, id: &str, usage: Option<TokenUsage>)
        ensures
            final(self)@ == cost_after(old(self)@, id@, usage),
    {
        if let Some(usage) = usage {
            if !self.is_counted(id) {
                self.input_tokens = self.input_tokens.saturating_add(usage.input_tokens);
                self.output_tokens = self.output_tokens.saturating_add(usage.output_tokens);
                self.cache_read_tokens = self.cache_read_tokens.saturating_add(
                    usage.cache_read_tokens,
                );
                self.cache_write_tokens = self.cache_write_tokens.saturating_add(
                    usage.cache_write_tokens,
                );
                self.reasoning_tokens = self.reasoning_tokens.saturating_add(
                    usage.reasoning_tokens,
                );
                self.provider_calls = self.provider_calls.saturating_add(1);
                let ghost before = text_seq(self.counted@);
                self.counted.push(id.to_owned());
                proof {
                    let after = text_seq(self.counted@);
                    assert(after =~= before.push(id@));
                    assert forall|other: Seq<char>| #[trigger]
                        after.to_set().contains(other) == before.to_set().insert(id@).contains(
                            other,
                        ) by {
                        if before.contains(other) {
                            let j = choose|j: int| 0 <= j < before.len() && before[j] == other;
                            assert(after[j] == other);
                        }
                        if other == id@ {
                            assert(after[before.len() as int] == id@);
                        }
                        if after.contains(other) && other != id@ {
                            let j = choose|j: int| 0 <= j < after.len() && after[j] == other;
                            assert(before[j] == other);
                        }
                    }
                    assert(after.to_set() =~= before.to_set().insert(id@));
                }
            }
        }
    }

    /// Writes the sums as JSON.
    pub fn snapshot(&self) -> (text: String)
        ensures
            text@ == json_text(cost_view(self@)),
            reads_as(text@, cost_view(self@)),
    {
        let mut value = json_object();
        json_set(&mut value, "totalInputTokens", json_u64(self.input_tokens));
        json_set(&mut value, "totalOutputTokens", json_u64(self.output_tokens));
        json_set(&mut value, "totalCacheReadTokens", json_u64(self.cache_read_tokens));
        json_set(&mut value, "totalCacheWriteTokens", json_u64(self.cache_write_tokens));
        json_set(&mut value, "totalReasoningTokens", json_u64(self.reasoning_tokens));
        json_set(&mut value, "providerCalls", json_u64(self.provider_calls));
        proof {
            let fields = cost_view(self@)->Object_0;
            assert forall|key: Seq<char>| #[trigger] fields.contains_key(key) implies json_plain(
                fields[key],
                126,
            ) by {}
            assert(json_plain(cost_view(self@), 127));
        }
        json_to_string(&value)
    }
}

/// A message counts once: to record it again changes nothing.
pub proof fn cost_counts_once(cost: CostView, id: Seq<char>, usage: TokenUsage, again: TokenUsage)
    ensures
        cost_after(cost_after(cost, id, Some(usage)), id, Some(again)) == cost_after(
            cost,
            id,
            Some(usage),
        ),
{
}

} // verus!

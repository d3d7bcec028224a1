//! Token usage of a session, summed over the responses of the model.
use vstd::prelude::*;

verus! {

/// How the prompt tokens of a response came about, as far as it was reported.
#[derive(Debug, Clone, Copy, PartialEq, Eq, Structural)]
pub struct PromptTokensDetails {
    pub input_tokens: Option<u32>,
    pub output_tokens: Option<u32>,
    pub cache_read_input_tokens: Option<u32>,
    pub cache_write_input_tokens: Option<u32>,
}

/// Token counts of one response, or of a session.
#[derive(Debug, Clone, Copy, PartialEq, Eq, Structural)]
pub struct LLMTokenUsage {
    pub prompt_tokens: u32,
    pub completion_tokens: u32,
    pub total_tokens: u32,
    pub prompt_tokens_details: Option<PromptTokensDetails>,
}

/// The mathematical counts of a [`PromptTokensDetails`].
pub struct DetailCounts {
    pub input: Option<nat>,
    pub output: Option<nat>,
    pub cache_read: Option<nat>,
    pub cache_write: Option<nat>,
}

/// The mathematical counts of a [`LLMTokenUsage`].
pub struct UsageCounts {
    pub prompt: nat,
    pub completion: nat,
    pub total: nat,
    pub details: Option<DetailCounts>,
}

/// A reported count as a number.
pub open spec fn count_of(reported: Option<u32>) -> Option<nat> {
    match reported {
        Some(n) => Some(n as nat),
        None => None,
    }
}

impl View for PromptTokensDetails {
    type V = DetailCounts;

    open spec fn view(&self) -> DetailCounts {
        DetailCounts {
            input: count_of(self.input_tokens),
            output: count_of(self.output_tokens),
            cache_read: count_of(self.cache_read_input_tokens),
            cache_write: count_of(self.cache_write_input_tokens),
        }
    }
}

impl View for LLMTokenUsage {
    type V = UsageCounts;

    open spec fn view(&self) -> UsageCounts {
        UsageCounts {
            prompt: self.prompt_tokens as nat,
            completion: self.completion_tokens as nat,
            total: self.total_tokens as nat,
            details: match self.prompt_tokens_details {
                Some(details) => Some(details@),
                None => None,
            },
        }
    }
}

/// The usage of a session that has had no response yet.
pub open spec fn no_usage() -> UsageCounts {
    UsageCounts { prompt: 0, completion: 0, total: 0, details: None }
}

/// A count and a further one; a count that is not reported adds nothing.
pub open spec fn count_plus(count: Option<nat>, more: Option<nat>) -> Option<nat> {
    match (count, more) {
        (Some(a), Some(b)) => Some(a + b),
        (None, Some(b)) => Some(b),
        (a, None) => a,
    }
}

/// The details of a session after a response with the details `more`.
pub open spec fn details_plus(
    details: Option<DetailCounts>,
    more: Option<DetailCounts>,
) -> Option<DetailCounts> {
    match (details, more) {
        (Some(a), Some(b)) => Some(
            DetailCounts {
                input: count_plus(a.input, b.input),
                output: count_plus(a.output, b.output),
                cache_read: count_plus(a.cache_read, b.cache_read),
                cache_write: count_plus(a.cache_write, b.cache_write),
            },
        ),
        (None, Some(b)) => Some(b),
        (a, None) => a,
    }
}

/// The usage of a session after a response with the usage `more`.
pub open spec fn usage_plus(usage: UsageCounts, more: UsageCounts) -> UsageCounts {
    UsageCounts {
        prompt: usage.prompt + more.prompt,
        completion: usage.completion + more.completion,
        total: usage.total + more.total,
        details: details_plus(usage.details, more.details),
    }
}

/// The usage of a session after the responses `responses`.
pub open spec fn usage_sum(responses: Seq<UsageCounts>) -> UsageCounts
    decreases responses.len(),
{
    if responses.len() == 0 {
        no_usage()
    } else {
        usage_plus(usage_sum(responses.drop_last()), responses.last())
    }
}

/// A count that the counters can hold.
pub open spec fn count_fits(count: Option<nat>) -> bool {
    count is Some ==> count->0 <= u32::MAX
}

/// A usage that the counters can hold.
pub open spec fn usage_fits(usage: UsageCounts) -> bool {
    &&& usage.prompt <= u32::MAX
    &&& usage.completion <= u32::MAX
    &&& usage.total <= u32::MAX
    &&& usage.details is Some ==> {
        let details = usage.details->0;
        &&& count_fits(details.input)
        &&& count_fits(details.output)
        &&& count_fits(details.cache_read)
        &&& count_fits(details.cache_write)
    }
}

/// Whether a counter can take `more` in addition.
fn counter_takes(count: Option<u32>, more: Option<u32>) -> (res: bool)
    ensures
        res == count_fits(count_plus(count_of(count), count_of(more))),
{
    match (count, more) {
        (Some(a), Some(b)) => b <= u32::MAX - a,
        _ => true,
    }
}

/// The counter after `more` in addition.
fn counter_plus(count: Option<u32>, more: Option<u32>) -> (res: Option<u32>)
    requires
        count_fits(count_plus(count_of(count), count_of(more))),
    ensures
        count_of(res) == count_plus(count_of(count), count_of(more)),
{
    match (count, more) {
        (Some(a), Some(b)) => Some(a + b),
        (None, Some(b)) => Some(b),
        (a, None) => a,
    }
}

impl LLMTokenUsage {
    /// The usage of a session that has had no response yet.
    pub fn none() -> (res: Self)
        ensures
            res@ == no_usage(),
    {
        LLMTokenUsage {
            prompt_tokens: 0,
            completion_tokens: 0,
            total_tokens: 0,
            prompt_tokens_details: None,
        }
    }

    /// Whether the counters can take the usage of a further response.
    pub fn can_take(&self, more: &LLMTokenUsage) -> (res: bool)
        ensures
            res == usage_fits(usage_plus(self@, more@)),
    {
        let sums = more.prompt_tokens <= u32::MAX - self.prompt_tokens && more.completion_tokens
            <= u32::MAX - self.completion_tokens && more.total_tokens <= u32::MAX
            - self.total_tokens;
        let details = match (self.prompt_tokens_details, more.prompt_tokens_details) {
            (Some(a), Some(b)) => counter_takes(a.input_tokens, b.input_tokens) && counter_takes(
                a.output_tokens,
                b.output_tokens,
            ) && counter_takes(a.cache_read_input_tokens, b.cache_read_input_tokens)
                && counter_takes(a.cache_write_input_tokens, b.cache_write_input_tokens),
            _ => true,
        };
        sums && details
    }

    /// Adds the usage of a response to that of the session.
    pub fn accumulate(&mut self, more: &LLMTokenUsage)
        requires
            usage_fits(usage_plus(old(self)@, more@)),
        ensures
            final(self)@ == usage_plus(old(self)@, more@),
    {
        self.prompt_tokens = self.prompt_tokens + more.prompt_tokens;
        self.completion_tokens = self.completion_tokens + more.completion_tokens;
        self.total_tokens = self.total_tokens + more.total_tokens;
        self.prompt_tokens_details = match (self.prompt_tokens_details, more.prompt_tokens_details) {
            (Some(a), Some(b)) => Some(
                PromptTokensDetails {
                    input_tokens: counter_plus(a.input_tokens, b.input_tokens),
                    output_tokens: counter_plus(a.output_tokens, b.output_tokens),
                    cache_read_input_tokens: counter_plus(
                        a.cache_read_input_tokens,
                        b.cache_read_input_tokens,
                    ),
                    cache_write_input_tokens: counter_plus(
                        a.cache_write_input_tokens,
                        b.cache_write_input_tokens,
                    ),
                },
            ),
            (None, Some(b)) => Some(b),
            (a, None) => a,
        };
    }
}

/// Adding usages does not depend on how they are grouped.
pub proof fn law_usage_plus_associative(a: UsageCounts, b: UsageCounts, c: UsageCounts)
    ensures
        usage_plus(usage_plus(a, b), c) == usage_plus(a, usage_plus(b, c)),
{
}

/// Adding usages does not depend on their order.
pub proof fn law_usage_plus_commutative(a: UsageCounts, b: UsageCounts)
    ensures
        usage_plus(a, b) == usage_plus(b, a),
{
}

/// A session's usage is that of its first responses and that of its later ones
/// together: nothing is counted twice or dropped.
pub proof fn law_usage_sum_splits(first: Seq<UsageCounts>, later: Seq<UsageCounts>)
    ensures
        usage_sum(first + later) == usage_plus(usage_sum(first), usage_sum(later)),
    decreases later.len(),
{
    if later.len() == 0 {
        assert(first + later =~= first);
    } else {
        assert((first + later).drop_last() =~= first + later.drop_last());
        law_usage_sum_splits(first, later.drop_last());
        law_usage_plus_associative(usage_sum(first), usage_sum(later.drop_last()), later.last());
    }
}

/// A count as a number; one that is not reported counts as zero.
pub open spec fn reported(count: Option<nat>) -> nat {
    match count {
        Some(n) => n,
        None => 0,
    }
}

/// The input tokens in the details of a usage.
pub open spec fn input_of(usage: UsageCounts) -> Option<nat> {
    match usage.details {
        Some(details) => details.input,
        None => None,
    }
}

/// The output tokens in the details of a usage.
pub open spec fn output_of(usage: UsageCounts) -> Option<nat> {
    match usage.details {
        Some(details) => details.output,
        None => None,
    }
}

/// The tokens read from a cache in the details of a usage.
pub open spec fn cache_read_of(usage: UsageCounts) -> Option<nat> {
    match usage.details {
        Some(details) => details.cache_read,
        None => None,
    }
}

/// The tokens written to a cache in the details of a usage.
pub open spec fn cache_write_of(usage: UsageCounts) -> Option<nat> {
    match usage.details {
        Some(details) => details.cache_write,
        None => None,
    }
}

/// `sum` is what two reports come to: the sum of what they report, absent only where
/// neither reports anything.
pub open spec fn comes_to(a: Option<nat>, b: Option<nat>, sum: Option<nat>) -> bool {
    &&& sum is None <==> a is None && b is None
    &&& reported(sum) == reported(a) + reported(b)
}

/// Each counter of a sum of two usages is the sum of the two counters, and one of the
/// details is absent only where neither usage reports it.
pub proof fn law_usage_adds_each_count(a: UsageCounts, b: UsageCounts)
    ensures
        usage_plus(a, b).prompt == a.prompt + b.prompt,
        usage_plus(a, b).completion == a.completion + b.completion,
        usage_plus(a, b).total == a.total + b.total,
        usage_plus(a, b).details is None <==> a.details is None && b.details is None,
        comes_to(input_of(a), input_of(b), input_of(usage_plus(a, b))),
        comes_to(output_of(a), output_of(b), output_of(usage_plus(a, b))),
        comes_to(cache_read_of(a), cache_read_of(b), cache_read_of(usage_plus(a, b))),
        comes_to(cache_write_of(a), cache_write_of(b), cache_write_of(usage_plus(a, b))),
{
}

/// The sum of the counts of all responses.
pub open spec fn total_count(responses: Seq<UsageCounts>, count: spec_fn(UsageCounts) -> nat) -> nat
    decreases responses.len(),
{
    if responses.len() == 0 {
        0
    } else {
        count(responses[0]) + total_count(responses.drop_first(), count)
    }
}

/// The last count goes into the sum like the others.
proof fn lemma_total_count_last(responses: Seq<UsageCounts>, count: spec_fn(UsageCounts) -> nat)
    requires
        responses.len() > 0,
    ensures
        total_count(responses, count) == total_count(responses.drop_last(), count) + count(
            responses.last(),
        ),
    decreases responses.len(),
{
    let rest = responses.drop_first();
    if rest.len() > 0 {
        lemma_total_count_last(rest, count);
        assert(rest.drop_last() =~= responses.drop_last().drop_first());
    } else {
        assert(rest =~= Seq::empty());
        assert(responses.drop_last() =~= Seq::empty());
    }
}

/// Some response reports the count.
pub open spec fn some_reports(
    responses: Seq<UsageCounts>,
    count: spec_fn(UsageCounts) -> Option<nat>,
) -> bool {
    exists|i: int| 0 <= i < responses.len() && count(#[trigger] responses[i]) is Some
}

/// Of several responses, some reports a count where the last does or some before it does.
proof fn lemma_some_reports(
    responses: Seq<UsageCounts>,
    count: spec_fn(UsageCounts) -> Option<nat>,
)
    requires
        responses.len() > 0,
    ensures
        some_reports(responses, count) <==> some_reports(responses.drop_last(), count) || count(
            responses.last(),
        ) is Some,
{
    let rest = responses.drop_last();
    if some_reports(rest, count) {
        let i = choose|i: int| 0 <= i < rest.len() && count(#[trigger] rest[i]) is Some;
        assert(count(responses[i]) is Some);
    }
    if some_reports(responses, count) && count(responses.last()) is None {
        let i = choose|i: int| 0 <= i < responses.len() && count(#[trigger] responses[i]) is Some;
        assert(count(rest[i]) is Some);
    }
}

/// Every counter of a session is the sum of what its responses report, and a counter of
/// the details is absent only where no response reports it.
pub proof fn law_session_counts_every_report(responses: Seq<UsageCounts>)
    ensures
        usage_sum(responses).prompt == total_count(responses, |usage: UsageCounts| usage.prompt),
        usage_sum(responses).completion == total_count(
            responses,
            |usage: UsageCounts| usage.completion,
        ),
        usage_sum(responses).total == total_count(responses, |usage: UsageCounts| usage.total),
        reported(input_of(usage_sum(responses))) == total_count(
            responses,
            |usage: UsageCounts| reported(input_of(usage)),
        ),
        reported(output_of(usage_sum(responses))) == total_count(
            responses,
            |usage: UsageCounts| reported(output_of(usage)),
        ),
        reported(cache_read_of(usage_sum(responses))) == total_count(
            responses,
            |usage: UsageCounts| reported(cache_read_of(usage)),
        ),
        reported(cache_write_of(usage_sum(responses))) == total_count(
            responses,
            |usage: UsageCounts| reported(cache_write_of(usage)),
        ),
        input_of(usage_sum(responses)) is Some <==> some_reports(
            responses,
            |usage: UsageCounts| input_of(usage),
        ),
        output_of(usage_sum(responses)) is Some <==> some_reports(
            responses,
            |usage: UsageCounts| output_of(usage),
        ),
        cache_read_of(usage_sum(responses)) is Some <==> some_reports(
            responses,
            |usage: UsageCounts| cache_read_of(usage),
        ),
        cache_write_of(usage_sum(responses)) is Some <==> some_reports(
            responses,
            |usage: UsageCounts| cache_write_of(usage),
        ),
    decreases responses.len(),
{
    if responses.len() > 0 {
        let rest = responses.drop_last();
        law_session_counts_every_report(rest);
        law_usage_adds_each_count(usage_sum(rest), responses.last());
        lemma_total_count_last(responses, |usage: UsageCounts| usage.prompt);
        lemma_total_count_last(responses, |usage: UsageCounts| usage.completion);
        lemma_total_count_last(responses, |usage: UsageCounts| usage.total);
        lemma_total_count_last(responses, |usage: UsageCounts| reported(input_of(usage)));
        lemma_total_count_last(responses, |usage: UsageCounts| reported(output_of(usage)));
        lemma_total_count_last(responses, |usage: UsageCounts| reported(cache_read_of(usage)));
        lemma_total_count_last(responses, |usage: UsageCounts| reported(cache_write_of(usage)));
        lemma_some_reports(responses, |usage: UsageCounts| input_of(usage));
        lemma_some_reports(responses, |usage: UsageCounts| output_of(usage));
        lemma_some_reports(responses, |usage: UsageCounts| cache_read_of(usage));
        lemma_some_reports(responses, |usage: UsageCounts| cache_write_of(usage));
    }
}

/// A usage fits where each of its seven counts is one that 32 bits can hold.
pub proof fn law_usage_fits_where_each_count_does(usage: UsageCounts)
    ensures
        usage_fits(usage) <==> {
            &&& usage.prompt <= u32::MAX
            &&& usage.completion <= u32::MAX
            &&& usage.total <= u32::MAX
            &&& reported(input_of(usage)) <= u32::MAX
            &&& reported(output_of(usage)) <= u32::MAX
            &&& reported(cache_read_of(usage)) <= u32::MAX
            &&& reported(cache_write_of(usage)) <= u32::MAX
        },
{
}

/// Two usages with the same counts are the same: the counts leave nothing out.
pub proof fn law_counts_leave_nothing_out(a: LLMTokenUsage, b: LLMTokenUsage)
    ensures
        a@ == b@ ==> a == b,
        a@.prompt == a.prompt_tokens,
        a@.completion == a.completion_tokens,
        a@.total == a.total_tokens,
        a.prompt_tokens_details matches Some(details) ==> {
            &&& input_of(a@) is Some <==> details.input_tokens is Some
            &&& reported(input_of(a@)) == details.input_tokens.unwrap_or(0)
            &&& output_of(a@) is Some <==> details.output_tokens is Some
            &&& reported(output_of(a@)) == details.output_tokens.unwrap_or(0)
            &&& cache_read_of(a@) is Some <==> details.cache_read_input_tokens is Some
            &&& reported(cache_read_of(a@)) == details.cache_read_input_tokens.unwrap_or(0)
            &&& cache_write_of(a@) is Some <==> details.cache_write_input_tokens is Some
            &&& reported(cache_write_of(a@)) == details.cache_write_input_tokens.unwrap_or(0)
        },
{
    match (a.prompt_tokens_details, b.prompt_tokens_details) {
        (Some(x), Some(y)) => {
            if a@ == b@ {
                assert(x@ == y@);
                assert(x == y);
            }
        },
        _ => {},
    }
}

} // verus!

//! Rule sets, scans, and the records a scan gives back.
//!
//! A scan is driven from outside: the caller makes the native call and hands
//! each callback message to the [`Scan`] that the rule set planned. The
//! `Scan` copies what it is shown, tells the callback what to answer, and at
//! the end turns the native status and what it has collected into the
//! outcome.

use std::marker::PhantomData;
use vstd::prelude::*;
use crate::errors::ScanError;
use crate::native::{
    CallbackResult, CALLBACK_MSG_RULE_MATCHING, ERROR_CALLBACK_ERROR, ERROR_SCAN_TIMEOUT, ERROR_SUCCESS,
};
use crate::string::{NativeString, NativeStringView, YrString, YrStringView};
use crate::Yara;

verus! {

/// A rule whose condition held on the scanned content.
///
/// The value owns all of its data; nothing in it points into the engine.
#[derive(Debug, PartialEq, Eq)]
pub struct Rule {
    /// Name of the rule.
    pub identifier: String,
    /// The strings of the rule that were found, each with its locations.
    pub strings: Vec<YrString>,
}

/// What a `Rule` holds.
pub struct RuleView {
    pub identifier: Seq<char>,
    pub strings: Seq<YrStringView>,
}

impl View for Rule {
    type V = RuleView;

    open spec fn view(&self) -> RuleView {
        RuleView {
            identifier: self.identifier@,
            strings: self.strings@.map_values(|s: YrString| s@),
        }
    }
}

impl Clone for Rule {
    fn clone(&self) -> (copy: Rule)
        ensures
            copy@ == self@,
    {
        let mut strings: Vec<YrString> = Vec::new();
        let mut i: usize = 0;
        while i < self.strings.len()
            invariant
                i <= self.strings.len(),
                strings@.map_values(|s: YrString| s@) == self@.strings.take(i as int),
            decreases self.strings.len() - i,
        {
            let string = self.strings[i].clone();
            proof {
                self@.strings.lemma_take_succ_push(i as int);
                strings@.lemma_push_map_commute(|s: YrString| s@, string);
            }
            strings.push(string);
            i += 1;
        }
        assert(self@.strings.take(i as int) == self@.strings);
        Rule { identifier: self.identifier.clone(), strings }
    }
}

impl RuleView {
    /// Whether every string record has a location and lies inside content of
    /// `limit` bytes.
    pub open spec fn well_formed(self, limit: u64) -> bool {
        forall|i: int| 0 <= i < self.strings.len() ==> (#[trigger] self.strings[i]).well_formed(limit)
    }
}

/// What a list of rules holds.
pub open spec fn outcome_view(rules: Seq<Rule>) -> Seq<RuleView> {
    rules.map_values(|r: Rule| r@)
}

/// A matching rule as the engine shows it during a callback. The identifiers
/// are borrowed from the engine and must not outlive the callback.
#[derive(Debug)]
pub struct NativeRule<'a> {
    /// Name of the rule.
    pub identifier: &'a str,
    /// Every string of the rule, found or not, in the engine's order.
    pub strings: Vec<NativeString<'a>>,
}

/// What a `NativeRule` holds.
pub struct NativeRuleView {
    pub identifier: Seq<char>,
    pub strings: Seq<NativeStringView>,
}

impl<'a> View for NativeRule<'a> {
    type V = NativeRuleView;

    open spec fn view(&self) -> NativeRuleView {
        NativeRuleView {
            identifier: self.identifier@,
            strings: self.strings@.map_values(|s: NativeString<'a>| s@),
        }
    }
}

/// The strings of `raw` that were found, as owned records, in the same order.
pub open spec fn matched_strings(raw: Seq<NativeStringView>) -> Seq<YrStringView> {
    raw.filter(|s: NativeStringView| s.matched()).map_values(|s: NativeStringView| s.owned())
}

impl NativeRuleView {
    /// Whether every match record of every string fits content of `limit`
    /// bytes.
    pub open spec fn fits(self, limit: u64) -> bool {
        forall|i: int| 0 <= i < self.strings.len() ==> (#[trigger] self.strings[i]).fits(limit)
    }

    /// The owned record that the rule stands for: its name, and those of its
    /// strings that were found.
    pub open spec fn owned(self) -> RuleView {
        RuleView { identifier: self.identifier, strings: matched_strings(self.strings) }
    }
}

/// The records made of strings whose match records fit the content are well
/// formed: each has a location, and each location lies inside the content.
pub proof fn lemma_matched_strings_well_formed(raw: Seq<NativeStringView>, limit: u64)
    requires
        forall|i: int| 0 <= i < raw.len() ==> (#[trigger] raw[i]).fits(limit),
    ensures
        forall|i: int|
            0 <= i < matched_strings(raw).len() ==> (#[trigger] matched_strings(raw)[i]).well_formed(limit),
    decreases raw.len(),
{
    if raw.len() > 0 {
        let found = |s: NativeStringView| s.matched();
        let owned = |s: NativeStringView| s.owned();
        let front = raw.drop_last();
        let last = raw.last();
        lemma_matched_strings_well_formed(front, limit);
        assert(raw == front.push(last));
        front.lemma_filter_push(last, found);
        front.filter(found).lemma_push_map_commute(owned, last);
        assert(last.fits(limit));
        if last.matched() {
            assert(matched_strings(raw) == matched_strings(front).push(last.owned()));
            assert(last.owned().well_formed(limit)) by {
                assert forall|j: int| 0 <= j < last.owned().matches.len() implies (
                #[trigger] last.owned().matches[j]).within(limit) by {
                    assert(last.matches[j].fits(limit));
                }
            }
        } else {
            assert(matched_strings(raw) == matched_strings(front));
        }
    } else {
        assert(raw.filter(|s: NativeStringView| s.matched()).len() == 0) by {
            raw.lemma_filter_len(|s: NativeStringView| s.matched());
        }
    }
}

impl<'a> NativeRule<'a> {
    /// Copies the rule, and those of its strings that were found, out of the
    /// engine's memory. A match record that does not fit the content refuses
    /// the whole rule.
    pub fn copy_out(&self, limit: u64) -> (copy: Option<Rule>)
        ensures
            copy is Some <==> self@.fits(limit),
            copy matches Some(rule) ==> rule@ == self@.owned() && rule@.well_formed(limit),
    {
        let ghost raw = self@.strings;
        let mut strings: Vec<YrString> = Vec::new();
        let mut i: usize = 0;
        while i < self.strings.len()
            invariant
                i <= self.strings.len(),
                raw == self@.strings,
                raw.len() == self.strings.len(),
                forall|j: int| 0 <= j < i ==> (#[trigger] raw[j]).fits(limit),
                strings@.map_values(|s: YrString| s@) == matched_strings(raw.take(i as int)),
            decreases self.strings.len() - i,
        {
            proof {
                let found = |s: NativeStringView| s.matched();
                let owned = |s: NativeStringView| s.owned();
                let prefix = raw.take(i as int);
                assert(raw[i as int] == self.strings@[i as int]@);
                raw.lemma_take_succ_push(i as int);
                prefix.lemma_filter_push(raw[i as int], found);
                prefix.filter(found).lemma_push_map_commute(owned, raw[i as int]);
            }
            if self.strings[i].matches.len() > 0 {
                match self.strings[i].copy_out(limit) {
                    Some(string) => {
                        proof {
                            strings@.lemma_push_map_commute(|s: YrString| s@, string);
                        }
                        strings.push(string);
                    },
                    None => {
                        return None;
                    },
                }
            }
            i += 1;
        }
        proof {
            assert(raw.take(i as int) == raw);
            lemma_matched_strings_well_formed(raw, limit);
        }
        Some(Rule { identifier: self.identifier.to_owned(), strings })
    }
}

/// A message of the engine to a scan callback: its tag, and the rule it
/// carries where the tag announces a matching rule.
pub struct MessageView {
    pub tag: i32,
    pub rule: Option<NativeRuleView>,
}

/// What a `Scan` holds.
pub struct ScanView {
    /// Handle of the rule set that is scanned with.
    pub rules: usize,
    /// Time budget in whole seconds.
    pub timeout: u16,
    /// Length of the scanned content in bytes.
    pub limit: u64,
    /// The rules collected so far, in the order of their messages.
    pub found: Seq<RuleView>,
    /// Whether a message could not be taken in.
    pub failed: bool,
}

impl ScanView {
    /// A scan that has not yet received a message.
    pub open spec fn start(rules: usize, timeout: u16, limit: u64) -> ScanView {
        ScanView { rules, timeout, limit, found: Seq::empty(), failed: false }
    }

    /// Whether `message` announces a matching rule.
    pub open spec fn announces_rule(message: MessageView) -> bool {
        message.tag == CALLBACK_MSG_RULE_MATCHING
    }

    /// Whether `message` announces a matching rule that can be taken in: the
    /// rule is there and its match records fit the content.
    pub open spec fn takes_in(self, message: MessageView) -> bool {
        &&& Self::announces_rule(message)
        &&& message.rule matches Some(rule)
        &&& rule.fits(self.limit)
    }

    /// The scan after `message`. A failed scan stays as it is. A message
    /// with another tag than that of a matching rule changes nothing. A
    /// matching rule that can be taken in is appended; one that cannot makes
    /// the scan fail.
    pub open spec fn receive(self, message: MessageView) -> ScanView {
        if self.failed || !Self::announces_rule(message) {
            self
        } else if self.takes_in(message) {
            ScanView { found: self.found.push(message.rule->Some_0.owned()), ..self }
        } else {
            ScanView { failed: true, ..self }
        }
    }

    /// What the callback answers to `message`: an error where the scan has
    /// failed or fails on this message, and a request to go on otherwise.
    pub open spec fn reply(self, message: MessageView) -> CallbackResult {
        if self.receive(message).failed {
            CallbackResult::Error
        } else {
            CallbackResult::Continue
        }
    }

    /// The scan after every message of `messages`, in order.
    pub open spec fn receive_all(self, messages: Seq<MessageView>) -> ScanView
        decreases messages.len(),
    {
        if messages.len() == 0 {
            self
        } else {
            self.receive_all(messages.drop_last()).receive(messages.last())
        }
    }

    /// What the scan yields once the native call has returned `status`. A
    /// status other than success is the error it stands for, whatever was
    /// collected. On success a failed scan is a callback error, and any other
    /// scan yields the collected rules.
    pub open spec fn outcome(self, status: i32) -> Result<Seq<RuleView>, ScanError> {
        match ScanError::of_status(status) {
            Some(error) => Err(error),
            None => if self.failed {
                Err(ScanError::Engine { cause: ERROR_CALLBACK_ERROR })
            } else {
                Ok(self.found)
            },
        }
    }
}

/// The owned records of the rules that `messages` announce, in the order of
/// the messages.
pub open spec fn announced(messages: Seq<MessageView>) -> Seq<RuleView> {
    messages.filter(|m: MessageView| ScanView::announces_rule(m)).map_values(
        |m: MessageView| m.rule->Some_0.owned(),
    )
}

/// Receiving `first` and then `second` is receiving the two in a row.
pub proof fn lemma_receive_all_in_parts(scan: ScanView, first: Seq<MessageView>, second: Seq<MessageView>)
    ensures
        scan.receive_all(first + second) == scan.receive_all(first).receive_all(second),
    decreases second.len(),
{
    if second.len() == 0 {
        assert(first + second == first);
    } else {
        lemma_receive_all_in_parts(scan, first, second.drop_last());
        assert((first + second).drop_last() == first + second.drop_last());
        assert((first + second).last() == second.last());
    }
}

/// Messages that announce no rule change nothing.
pub proof fn lemma_other_messages_change_nothing(scan: ScanView, messages: Seq<MessageView>)
    requires
        forall|i: int| 0 <= i < messages.len() ==> !ScanView::announces_rule(#[trigger] messages[i]),
    ensures
        scan.receive_all(messages) == scan,
    decreases messages.len(),
{
    if messages.len() > 0 {
        lemma_other_messages_change_nothing(scan, messages.drop_last());
    }
}

/// The rules come out in the order in which they were announced: where every
/// announced rule can be taken in, the scan collects exactly the announced
/// rules, appended in the order of their messages, and does not fail.
pub proof fn lemma_collects_in_arrival_order(scan: ScanView, messages: Seq<MessageView>)
    requires
        !scan.failed,
        forall|i: int|
            0 <= i < messages.len() && ScanView::announces_rule(#[trigger] messages[i]) ==> scan.takes_in(
                messages[i],
            ),
    ensures
        scan.receive_all(messages) == (ScanView { found: scan.found + announced(messages), ..scan }),
        scan.receive_all(messages).outcome(ERROR_SUCCESS) == Ok::<Seq<RuleView>, ScanError>(
            scan.found + announced(messages),
        ),
    decreases messages.len(),
{
    let announces = |m: MessageView| ScanView::announces_rule(m);
    let owned = |m: MessageView| m.rule->Some_0.owned();
    if messages.len() == 0 {
        messages.lemma_filter_len(announces);
        assert(scan.found + announced(messages) == scan.found);
    } else {
        let front = messages.drop_last();
        let last = messages.last();
        lemma_collects_in_arrival_order(scan, front);
        assert(messages == front.push(last));
        front.lemma_filter_push(last, announces);
        front.filter(announces).lemma_push_map_commute(owned, last);
        if ScanView::announces_rule(last) {
            assert(scan.takes_in(last));
            assert(announced(messages) == announced(front).push(owned(last)));
            assert(scan.found + announced(messages) == (scan.found + announced(front)).push(owned(last)));
        } else {
            assert(announced(messages) == announced(front));
        }
    }
}

/// A scan during which no rule is announced, and which the engine ends with
/// success, yields an empty outcome.
pub proof fn lemma_no_rule_announced(rules: usize, timeout: u16, limit: u64, messages: Seq<MessageView>)
    requires
        forall|i: int| 0 <= i < messages.len() ==> !ScanView::announces_rule(#[trigger] messages[i]),
    ensures
        ScanView::start(rules, timeout, limit).receive_all(messages).outcome(ERROR_SUCCESS) == Ok::<
            Seq<RuleView>,
            ScanError,
        >(Seq::empty()),
{
    lemma_other_messages_change_nothing(ScanView::start(rules, timeout, limit), messages);
}

/// A scan during which one rule is announced, among any other messages, and
/// which the engine ends with success, yields an outcome of one entry. The
/// entry has the name of the announced rule and is well formed for the
/// scanned content.
pub proof fn lemma_one_rule_announced(
    rules: usize,
    timeout: u16,
    limit: u64,
    before: Seq<MessageView>,
    message: MessageView,
    after: Seq<MessageView>,
)
    requires
        forall|i: int| 0 <= i < before.len() ==> !ScanView::announces_rule(#[trigger] before[i]),
        forall|i: int| 0 <= i < after.len() ==> !ScanView::announces_rule(#[trigger] after[i]),
        ScanView::start(rules, timeout, limit).takes_in(message),
    ensures
        ({
            let outcome = ScanView::start(rules, timeout, limit).receive_all(
                before.push(message) + after,
            ).outcome(ERROR_SUCCESS);
            &&& outcome matches Ok(found)
            &&& found.len() == 1
            &&& found[0] == message.rule->Some_0.owned()
            &&& found[0].identifier == message.rule->Some_0.identifier
            &&& found[0].well_formed(limit)
        }),
{
    let start = ScanView::start(rules, timeout, limit);
    let one = ScanView { found: seq![message.rule->Some_0.owned()], ..start };
    lemma_receive_all_in_parts(start, before.push(message), after);
    lemma_other_messages_change_nothing(start, before);
    assert(before.push(message).drop_last() == before);
    assert(start.receive_all(before.push(message)) == start.receive(message));
    assert(start.found.push(message.rule->Some_0.owned()) == one.found);
    lemma_other_messages_change_nothing(one, after);
    lemma_matched_strings_well_formed(message.rule->Some_0.strings, limit);
}

/// Scanning twice gives the same outcome: two scans of content of the same
/// length that receive the same messages and end with the same status yield
/// equal outcomes, whatever their time budgets were.
pub proof fn lemma_same_messages_same_outcome(
    rules: usize,
    limit: u64,
    first_timeout: u16,
    second_timeout: u16,
    messages: Seq<MessageView>,
    status: i32,
)
    ensures
        ScanView::start(rules, first_timeout, limit).receive_all(messages).outcome(status) == ScanView::start(
            rules,
            second_timeout,
            limit,
        ).receive_all(messages).outcome(status),
{
    lemma_timeout_does_not_matter(rules, limit, first_timeout, second_timeout, messages);
}

proof fn lemma_timeout_does_not_matter(
    rules: usize,
    limit: u64,
    first_timeout: u16,
    second_timeout: u16,
    messages: Seq<MessageView>,
)
    ensures
        ScanView::start(rules, second_timeout, limit).receive_all(messages) == (ScanView {
            timeout: second_timeout,
            ..ScanView::start(rules, first_timeout, limit).receive_all(messages)
        }),
    decreases messages.len(),
{
    if messages.len() > 0 {
        lemma_timeout_does_not_matter(rules, limit, first_timeout, second_timeout, messages.drop_last());
    }
}

/// A failed scan never yields an outcome: it stays failed whatever it
/// receives, and ends in an error whatever the final status is.
pub proof fn lemma_failed_scan_yields_nothing(scan: ScanView, messages: Seq<MessageView>, status: i32)
    requires
        scan.failed,
    ensures
        scan.receive_all(messages) == scan,
        scan.receive_all(messages).outcome(status) is Err,
    decreases messages.len(),
{
    if messages.len() > 0 {
        lemma_failed_scan_yields_nothing(scan, messages.drop_last(), status);
    }
}

/// One scan of some content with a rule set: what to hand to the native
/// scan call, and the collector of what the engine reports during it.
pub struct Scan {
    rules: usize,
    timeout: u16,
    limit: u64,
    found: Vec<Rule>,
    failed: bool,
}

impl View for Scan {
    type V = ScanView;

    closed spec fn view(&self) -> ScanView {
        ScanView {
            rules: self.rules,
            timeout: self.timeout,
            limit: self.limit,
            found: outcome_view(self.found@),
            failed: self.failed,
        }
    }
}

impl Scan {
    /// Every collected rule is well formed for the scanned content.
    #[verifier::type_invariant]
    spec fn collected_well_formed(self) -> bool {
        forall|i: int| 0 <= i < self.found@.len() ==> (#[trigger] self.found@[i])@.well_formed(self.limit)
    }

    fn start(rules: usize, timeout: u16, limit: u64) -> (scan: Scan)
        ensures
            scan@ == ScanView::start(rules, timeout, limit),
    {
        let scan = Scan { rules, timeout, limit, found: Vec::new(), failed: false };
        assert(scan@.found =~= Seq::empty());
        scan
    }

    /// Handle of the rule set to scan with.
    pub fn rules(&self) -> (handle: usize)
        ensures
            handle == self@.rules,
    {
        self.rules
    }

    /// Time budget to hand to the native scan call, in whole seconds.
    pub fn timeout(&self) -> (seconds: i32)
        ensures
            seconds == self@.timeout,
    {
        self.timeout as i32
    }

    /// Length of the scanned content in bytes.
    pub fn limit(&self) -> (limit: u64)
        ensures
            limit == self@.limit,
    {
        self.limit
    }

    /// Takes in one callback message and says what the callback answers.
    ///
    /// `rule` is looked at only where `tag` announces a matching rule; it is
    /// copied before this function returns.
    pub fn on_message(&mut self, tag: i32, rule: Option<&NativeRule>) -> (reply: CallbackResult)
        ensures
            final(self)@ == old(self)@.receive(message_view(tag, rule)),
            reply == old(self)@.reply(message_view(tag, rule)),
    {
        if self.failed {
            return CallbackResult::Error;
        }
        if tag != CALLBACK_MSG_RULE_MATCHING {
            return CallbackResult::Continue;
        }
        let copy = match rule {
            Some(native) => native.copy_out(self.limit),
            None => None,
        };
        match copy {
            Some(owned) => {
                proof {
                    use_type_invariant(&*self);
                    self.found@.lemma_push_map_commute(|r: Rule| r@, owned);
                }
                // The list is taken out, extended and put back, so that the
                // scan is well formed at every step.
                let mut found: Vec<Rule> = Vec::new();
                std::mem::swap(&mut self.found, &mut found);
                found.push(owned);
                std::mem::swap(&mut self.found, &mut found);
                CallbackResult::Continue
            },
            None => {
                proof {
                    use_type_invariant(&*self);
                }
                self.failed = true;
                CallbackResult::Error
            },
        }
    }

    /// Ends the scan with the status that the native call returned.
    ///
    /// A scan that timed out yields `Timeout` and nothing of what it had
    /// collected. Every rule of an outcome is well formed: each of its
    /// string records has a location, and every location lies inside the
    /// scanned content.
    pub fn finish(self, status: i32) -> (outcome: Result<Vec<Rule>, ScanError>)
        ensures
            match outcome {
                Ok(rules) => self@.outcome(status) == Ok::<Seq<RuleView>, ScanError>(outcome_view(rules@)),
                Err(error) => self@.outcome(status) == Err::<Seq<RuleView>, ScanError>(error),
            },
            status == ERROR_SCAN_TIMEOUT ==> outcome == Err::<Vec<Rule>, ScanError>(ScanError::Timeout),
            outcome matches Ok(rules) ==> rules@.len() == self@.found.len() && forall|i: int|
                0 <= i < rules@.len() ==> (#[trigger] rules@[i])@ == self@.found[i] && rules@[i]@.well_formed(
                    self@.limit,
                ),
    {
        proof {
            use_type_invariant(&self);
        }
        match ScanError::from_status(status) {
            Some(error) => Err(error),
            None => if self.failed {
                Err(ScanError::Engine { cause: ERROR_CALLBACK_ERROR })
            } else {
                Ok(self.found)
            },
        }
    }
}

/// The message that a tag and a rule shown by the engine make up.
pub open spec fn message_view(tag: i32, rule: Option<&NativeRule>) -> MessageView {
    MessageView {
        tag,
        rule: match rule {
            Some(native) => Some(native@),
            None => None,
        },
    }
}

/// A compiled rule set.
///
/// It is made from a compiler session or loaded from a file, and is not
/// changed afterwards. It borrows the engine handle it was made under.
pub struct Rules<'a> {
    owner: PhantomData<&'a mut Yara>,
    handle: usize,
}

impl<'a> Rules<'a> {
    /// The native handle of the rule set.
    pub closed spec fn spec_handle(&self) -> usize {
        self.handle
    }

    pub(crate) fn new(handle: usize) -> (rules: Rules<'a>)
        ensures
            rules.spec_handle() == handle,
    {
        Rules { owner: PhantomData, handle }
    }

    /// The native handle of the rule set.
    #[verifier::when_used_as_spec(spec_handle)]
    pub fn handle(&self) -> (handle: usize)
        ensures
            handle == self.spec_handle(),
    {
        self.handle
    }

    /// Plans a scan of the buffer `mem` with a budget of `timeout` seconds.
    pub fn scan_mem(&self, mem: &[u8], timeout: u16) -> (scan: Scan)
        ensures
            scan@ == ScanView::start(self.handle(), timeout, mem@.len() as u64),
    {
        Scan::start(self.handle, timeout, mem.len() as u64)
    }

    /// Plans a scan of a file with a budget of `timeout` seconds. `opened`
    /// is the file's length in bytes, or the operating system's error number
    /// where the file could not be opened.
    pub fn scan_file(&self, opened: Result<u64, Option<i32>>, timeout: u16) -> (plan: Result<Scan, ScanError>)
        ensures
            match opened {
                Ok(length) => plan matches Ok(scan) && scan@ == ScanView::start(self.handle(), timeout, length),
                Err(os_error) => plan matches Err(error) && error == (ScanError::Io { os_error }),
            },
    {
        match opened {
            Ok(length) => Ok(Scan::start(self.handle, timeout, length)),
            Err(os_error) => Err(ScanError::Io { os_error }),
        }
    }
}

} // verus!

//! Judging one dependency against the versions that the registry lists.

use vstd::prelude::*;
use vstd::string::*;
use crate::registry::{get_crate_versions, texts, versions_of_reply, LookupError, RegistryReply};
use crate::semantic::{
    core_exceeds, exceeds, has_pre_release, parse_version, parsed_version, render_version,
    version_core, version_exceeds, version_text,
};
use crate::manifest::Tomie;
use crate::version::{normalize_version, normalized, strip_caret, strip_leading_caret};

verus! {

/// The verdict on one dependency.
#[derive(Debug, Clone)]
pub struct DependencyAnalysis {
    /// The dependency's name.
    pub name: String,
    /// The declared version as the manifest has it, without a leading caret.
    pub current_version: String,
    /// The newest published version, in canonical form.
    pub latest_version: String,
    /// Whether the newest published version is later than the declared one.
    pub is_outdated: bool,
}

/// A `DependencyAnalysis` with its texts as sequences of characters.
pub struct AnalysisView {
    pub name: Seq<char>,
    pub current_version: Seq<char>,
    pub latest_version: Seq<char>,
    pub is_outdated: bool,
}

impl View for DependencyAnalysis {
    type V = AnalysisView;

    open spec fn view(&self) -> AnalysisView {
        AnalysisView {
            name: self.name@,
            current_version: self.current_version@,
            latest_version: self.latest_version@,
            is_outdated: self.is_outdated,
        }
    }
}

/// The record for a dependency `name` declared as `declared`, whose declared
/// version parsed to `current` and whose newest published one to `latest`.
pub open spec fn record_of(
    name: Seq<char>,
    declared: Seq<char>,
    current: semver::Version,
    latest: semver::Version,
) -> AnalysisView {
    AnalysisView {
        name: name,
        current_version: strip_caret(declared),
        latest_version: version_text(latest),
        is_outdated: exceeds(latest, current),
    }
}

/// The record that two parse results give: one only where both parsed.
pub open spec fn judged(
    name: Seq<char>,
    declared: Seq<char>,
    current: Option<semver::Version>,
    latest: Option<semver::Version>,
) -> Option<AnalysisView> {
    match (current, latest) {
        (Some(c), Some(l)) => Some(record_of(name, declared, c, l)),
        _ => None,
    }
}

/// The verdict on a dependency from the versions that the registry listed,
/// newest first: none where the list is empty or where the declared or the
/// newest version, once normalized, is no semantic version.
pub open spec fn analysis_of(name: Seq<char>, declared: Seq<char>, versions: Seq<Seq<char>>)
    -> Option<AnalysisView> {
    if versions.len() == 0 {
        None
    } else {
        judged(
            name,
            declared,
            parsed_version(normalized(declared)),
            parsed_version(normalized(versions[0])),
        )
    }
}

/// Builds the record of a dependency from the two parse results. The current
/// version is shown as declared, without its caret; the latest one in
/// canonical form.
pub fn judge_versions(
    name: String,
    declared: &str,
    current: Option<semver::Version>,
    latest: Option<semver::Version>,
) -> (verdict: Option<DependencyAnalysis>)
    ensures
        verdict is Some <==> current is Some && latest is Some,
        match verdict {
            Some(record) => Some(record@) == judged(name@, declared@, current, latest),
            None => judged(name@, declared@, current, latest) is None,
        },
{
    match (current, latest) {
        (Some(c), Some(l)) => {
            let shown: &str = strip_leading_caret(declared);
            Some(
                DependencyAnalysis {
                    name: name,
                    current_version: String::from_str(shown),
                    latest_version: render_version(&l),
                    is_outdated: version_exceeds(&l, &c),
                },
            )
        },
        _ => None,
    }
}

/// Judges the dependency `name`, declared as `current_version`, against the
/// versions that the registry listed for it. The first of them is taken as
/// the newest. No record comes back where the list is empty, or where one of
/// the two versions does not parse after normalization.
pub fn analyze_dependency(name: String, current_version: &str, versions: &Vec<String>) -> (verdict:
    Option<DependencyAnalysis>)
    ensures
        versions@.len() == 0 ==> verdict is None,
        match verdict {
            Some(record) => Some(record@) == analysis_of(
                name@,
                current_version@,
                texts(versions@),
            ),
            None => analysis_of(name@, current_version@, texts(versions@)) is None,
        },
{
    if versions.len() == 0 {
        return None;
    }
    let normalized_current: String = normalize_version(current_version);
    let normalized_latest: String = normalize_version(versions[0].as_str());
    let current = parse_version(normalized_current.as_str());
    let latest = parse_version(normalized_latest.as_str());
    judge_versions(name, current_version, current, latest)
}

/// A dependency that was looked up, with the registry's reply.
#[derive(Debug, Clone)]
pub struct AnsweredLookup {
    pub name: String,
    pub current_version: String,
    pub reply: RegistryReply,
}

/// What the analysis of one dependency comes to, given the registry's reply:
/// a record, no record, or the error that ended it.
pub open spec fn outcome_of(name: Seq<char>, declared: Seq<char>, reply: RegistryReply) -> Result<
    Option<AnalysisView>,
    LookupError,
> {
    match versions_of_reply(reply) {
        Ok(versions) => Ok(analysis_of(name, declared, versions)),
        Err(e) => Err(e),
    }
}

impl AnsweredLookup {
    /// What the analysis of this dependency comes to.
    pub open spec fn outcome(&self) -> Result<Option<AnalysisView>, LookupError> {
        outcome_of(self.name@, self.current_version@, self.reply)
    }

    /// The analysis of this dependency ends in a record.
    pub open spec fn recorded(&self) -> bool {
        self.outcome() matches Ok(Some(_))
    }
}

/// The records of a batch: those of the dependencies whose analysis ended in
/// one, in the order of the batch. All others leave nothing behind.
pub open spec fn reported(answered: Seq<AnsweredLookup>) -> Seq<AnalysisView>
    decreases answered.len(),
{
    if answered.len() == 0 {
        Seq::empty()
    } else {
        let front = reported(answered.drop_last());
        match answered.last().outcome() {
            Ok(Some(record)) => front.push(record),
            _ => front,
        }
    }
}

/// The views of a sequence of records.
pub open spec fn record_views(records: Seq<DependencyAnalysis>) -> Seq<AnalysisView> {
    records.map_values(|r: DependencyAnalysis| r@)
}

/// Analyzes one dependency from the registry's reply to the request for it.
/// An error in reading the reply ends the analysis with that error; a reply
/// that lists no version, or versions that do not parse, end it without a
/// record.
pub fn analyze_reply(name: String, current_version: &str, reply: &RegistryReply) -> (outcome:
    Result<Option<DependencyAnalysis>, LookupError>)
    ensures
        match outcome {
            Ok(Some(record)) => outcome_of(name@, current_version@, *reply) == Ok::<
                Option<AnalysisView>,
                LookupError,
            >(Some(record@)),
            Ok(None) => outcome_of(name@, current_version@, *reply) == Ok::<
                Option<AnalysisView>,
                LookupError,
            >(None),
            Err(e) => outcome_of(name@, current_version@, *reply) == Err::<
                Option<AnalysisView>,
                LookupError,
            >(e),
        },
{
    match get_crate_versions(reply) {
        Ok(versions) => Ok(analyze_dependency(name, current_version, &versions)),
        Err(e) => Err(e),
    }
}

/// Analyzes a batch of dependencies from the replies to their lookups and
/// collects the records. A dependency whose analysis failed or gave no record
/// is left out without a trace; the others keep the order of the batch.
pub fn analyze_dependencies(answered: &Vec<AnsweredLookup>) -> (analyses: Vec<DependencyAnalysis>)
    ensures
        record_views(analyses@) == reported(answered@),
        answered@.len() == 0 ==> analyses@.len() == 0,
{
    let mut analyses: Vec<DependencyAnalysis> = Vec::new();
    assert(record_views(analyses@) =~= Seq::<AnalysisView>::empty());
    let mut i: usize = 0;
    while i < answered.len()
        invariant
            i <= answered@.len(),
            record_views(analyses@) == reported(answered@.subrange(0, i as int)),
            answered@.len() == 0 ==> analyses@.len() == 0,
        decreases answered@.len() - i,
    {
        let ghost before = analyses@;
        let item: &AnsweredLookup = &answered[i];
        proof {
            let next = answered@.subrange(0, i + 1);
            assert(next.drop_last() =~= answered@.subrange(0, i as int));
            assert(next.last() == answered@[i as int]);
        }
        match analyze_reply(item.name.clone(), item.current_version.as_str(), &item.reply) {
            Ok(Some(record)) => {
                analyses.push(record);
                assert(record_views(analyses@) =~= record_views(before).push(record@));
            },
            _ => {},
        }
        i = i + 1;
    }
    assert(answered@.subrange(0, i as int) =~= answered@);
    analyses
}

/// A dependency is outdated exactly when the newest version is greater than
/// the declared one, major before minor before patch, each compared as a
/// number. This is the whole order for versions without pre-release
/// identifiers, of which the law speaks.
pub proof fn lemma_outdated_follows_precedence(
    name: Seq<char>,
    declared: Seq<char>,
    current: semver::Version,
    latest: semver::Version,
)
    requires
        !has_pre_release(current),
        !has_pre_release(latest),
    ensures
        record_of(name, declared, current, latest).is_outdated == core_exceeds(
            version_core(latest),
            version_core(current),
        ),
        record_of(name, declared, current, latest).is_outdated <==> {
            let (a, b) = (version_core(current), version_core(latest));
            b.0 > a.0 || (b.0 == a.0 && b.1 > a.1) || (b.0 == a.0 && b.1 == a.1 && b.2 > a.2)
        },
{
}

/// With the same three numbers, a declared pre-release is outdated by the
/// release itself, and a declared release never by one of its pre-releases.
pub proof fn lemma_release_outranks_pre_release(
    name: Seq<char>,
    declared: Seq<char>,
    current: semver::Version,
    latest: semver::Version,
)
    requires
        version_core(current) == version_core(latest),
    ensures
        has_pre_release(current) && !has_pre_release(latest) ==> record_of(
            name,
            declared,
            current,
            latest,
        ).is_outdated,
        !has_pre_release(current) ==> !record_of(name, declared, current, latest).is_outdated,
{
}

/// Whatever follows the patch number, the three numbers decide first: a
/// newest version with greater numbers makes the dependency outdated, one
/// with smaller numbers never does.
pub proof fn lemma_numbers_decide_first(
    name: Seq<char>,
    declared: Seq<char>,
    current: semver::Version,
    latest: semver::Version,
)
    ensures
        core_exceeds(version_core(latest), version_core(current)) ==> record_of(
            name,
            declared,
            current,
            latest,
        ).is_outdated,
        core_exceeds(version_core(current), version_core(latest)) ==> !record_of(
            name,
            declared,
            current,
            latest,
        ).is_outdated,
{
}

/// A dependency whose analysis ends without a record leaves no trace: the
/// batch reports what it would report without that dependency.
pub proof fn lemma_unrecorded_leaves_no_trace(answered: Seq<AnsweredLookup>, i: int)
    requires
        0 <= i < answered.len(),
        !answered[i].recorded(),
    ensures
        reported(answered) == reported(answered.remove(i)),
    decreases answered.len(),
{
    if i == answered.len() - 1 {
        assert(answered.remove(i) =~= answered.drop_last());
    } else {
        lemma_unrecorded_leaves_no_trace(answered.drop_last(), i);
        assert(answered.remove(i).drop_last() =~= answered.drop_last().remove(i));
        assert(answered.remove(i).last() == answered.last());
    }
}

/// A dependency for which the registry lists no version is never reported.
pub proof fn lemma_no_versions_no_record(answered: Seq<AnsweredLookup>, i: int)
    requires
        0 <= i < answered.len(),
        versions_of_reply(answered[i].reply) matches Ok(versions) && versions.len() == 0,
    ensures
        answered[i].outcome() == Ok::<Option<AnalysisView>, LookupError>(None),
        reported(answered) == reported(answered.remove(i)),
{
    lemma_unrecorded_leaves_no_trace(answered, i);
}

/// A dependency whose declared version, or whose newest published version,
/// is no semantic version after normalization is never reported.
pub proof fn lemma_unparsed_no_record(answered: Seq<AnsweredLookup>, i: int)
    requires
        0 <= i < answered.len(),
        versions_of_reply(answered[i].reply) matches Ok(versions) && versions.len() > 0 && (
        parsed_version(normalized(answered[i].current_version@)) is None || parsed_version(
            normalized(versions[0]),
        ) is None),
    ensures
        answered[i].outcome() == Ok::<Option<AnalysisView>, LookupError>(None),
        reported(answered) == reported(answered.remove(i)),
{
    lemma_unrecorded_leaves_no_trace(answered, i);
}

/// A dependency whose lookup ended in an error is never reported.
pub proof fn lemma_failed_lookup_no_record(answered: Seq<AnsweredLookup>, i: int)
    requires
        0 <= i < answered.len(),
        versions_of_reply(answered[i].reply) is Err,
    ensures
        reported(answered) == reported(answered.remove(i)),
{
    lemma_unrecorded_leaves_no_trace(answered, i);
}

/// Every record of a batch is the record of one of its dependencies: the one
/// at the index that is returned, whose registry list was not empty and
/// whose two versions parsed.
pub proof fn lemma_every_record_has_a_source(answered: Seq<AnsweredLookup>, k: int) -> (i: int)
    requires
        0 <= k < reported(answered).len(),
    ensures
        0 <= i < answered.len(),
        answered[i].outcome() == Ok::<Option<AnalysisView>, LookupError>(
            Some(reported(answered)[k]),
        ),
        versions_of_reply(answered[i].reply) matches Ok(versions) && versions.len() > 0
            && parsed_version(normalized(answered[i].current_version@)) is Some
            && parsed_version(normalized(versions[0])) is Some,
    decreases answered.len(),
{
    let front = reported(answered.drop_last());
    if answered.last().recorded() && k == front.len() {
        answered.len() - 1
    } else {
        lemma_every_record_has_a_source(answered.drop_last(), k)
    }
}

/// A manifest without a dependency table asks for no lookup, and a batch of
/// no lookups reports nothing.
pub proof fn lemma_no_table_no_result(manifest: Tomie)
    requires
        manifest.dependencies is None,
    ensures
        manifest.lookups().len() == 0,
        reported(Seq::<AnsweredLookup>::empty()).len() == 0,
{
}

} // verus!

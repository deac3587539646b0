//! The extra files that are installed beside a library, and how the
//! declarations of a package are resolved into them.
//!
//! A declaration names files relative to a root that is known only when a
//! build runs. Finding the files is the caller's part: it hands in the
//! function that expands one declaration against one root. Which root a
//! declaration is expanded against, which declarations are passed over, in
//! what order the results stand and what a failure does is decided here.

use vstd::prelude::*;
use crate::config::{CApiConfig, InstallTarget, InstallTargetPaths};
use crate::error::Error;

verus! {

/// A file to install: where it is, and where it goes.
pub type PathPair = (String, String);

/// What expanding one declaration gives: the files it stands for, in the
/// order they were found, or the reason why it could not be expanded.
pub type Outcome = Result<Vec<PathPair>, Error>;

/// The extra files of one build, headers and data apart, each list in the
/// order of the declarations it came from.
#[derive(Debug, Clone)]
pub struct ExtraTargets {
    pub headers: Vec<PathPair>,
    pub data: Vec<PathPair>,
}

/// What an [`ExtraTargets`] is, as plain values.
pub struct ExtraTargetsView {
    pub headers: Seq<(Seq<char>, Seq<char>)>,
    pub data: Seq<(Seq<char>, Seq<char>)>,
}

impl View for ExtraTargets {
    type V = ExtraTargetsView;

    open spec fn view(&self) -> ExtraTargetsView {
        ExtraTargetsView { headers: self.headers.deep_view(), data: self.data.deep_view() }
    }
}

impl Default for ExtraTargets {
    fn default() -> (r: ExtraTargets)
        ensures
            r@ == (ExtraTargetsView { headers: Seq::empty(), data: Seq::empty() }),
    {
        let empty = ExtraTargets { headers: Vec::new(), data: Vec::new() };
        assert(empty.headers.deep_view() =~= Seq::empty());
        assert(empty.data.deep_view() =~= Seq::empty());
        empty
    }
}

/// The expansion that a declaration calls for: its paths and the root they
/// are relative to. A declaration of files in the source tree is expanded
/// against `root_path`, whether or not there is a build output. One of
/// generated files is expanded against `root_output`, and calls for nothing
/// while there is none.
pub open spec fn request_of<'a>(
    target: &'a InstallTarget,
    root_path: &'a str,
    root_output: Option<&'a str>,
) -> Option<(&'a InstallTargetPaths, &'a str)> {
    match target {
        InstallTarget::Asset(paths) => Some((paths, root_path)),
        InstallTarget::Generated(paths) => match root_output {
            Some(root) => Some((paths, root)),
            None => None,
        },
    }
}

/// The expansions that a list of declarations calls for, in the order of
/// the declarations.
pub open spec fn requests_of<'a>(
    targets: Seq<InstallTarget>,
    root_path: &'a str,
    root_output: Option<&'a str>,
) -> Seq<(&'a InstallTargetPaths, &'a str)>
    decreases targets.len(),
{
    if targets.len() == 0 {
        Seq::empty()
    } else {
        let earlier = requests_of(targets.drop_last(), root_path, root_output);
        match request_of(&targets.last(), root_path, root_output) {
            Some(request) => earlier.push(request),
            None => earlier,
        }
    }
}

/// One outcome laid out item by item: each file of a success as a success
/// of its own, a failure as it is.
pub open spec fn spread<T, E>(group: Result<Vec<T>, E>) -> Seq<Result<T, E>> {
    match group {
        Ok(items) => items@.map_values(|item: T| Ok(item)),
        Err(e) => seq![Err(e)],
    }
}

/// A list of outcomes laid out item by item, in order.
pub open spec fn flattened<T, E>(groups: Seq<Result<Vec<T>, E>>) -> Seq<Result<T, E>>
    decreases groups.len(),
{
    if groups.len() == 0 {
        Seq::empty()
    } else {
        flattened(groups.drop_last()) + spread(groups.last())
    }
}

/// The items of a list, in order, if all are successes; else its first
/// failure.
pub open spec fn collected<T, E>(items: Seq<Result<T, E>>) -> Result<Seq<T>, E>
    decreases items.len(),
{
    if items.len() == 0 {
        Ok(Seq::empty())
    } else {
        match collected(items.drop_last()) {
            Ok(earlier) => match items.last() {
                Ok(item) => Ok(earlier.push(item)),
                Err(e) => Err(e),
            },
            Err(e) => Err(e),
        }
    }
}

/// What a list of items or a failure is, the list as a sequence.
pub open spec fn items_of<T, E>(r: Result<Vec<T>, E>) -> Result<Seq<T>, E> {
    match r {
        Ok(items) => Ok(items@),
        Err(e) => Err(e),
    }
}

/// One result after another: the first failure of the two, or the items
/// of both in a row.
pub open spec fn followed_by<T, E>(first: Result<Seq<T>, E>, second: Result<Seq<T>, E>) -> Result<
    Seq<T>,
    E,
> {
    match first {
        Ok(earlier) => match second {
            Ok(later) => Ok(earlier + later),
            Err(e) => Err(e),
        },
        Err(e) => Err(e),
    }
}

/// Whether `outcomes` is what expanding `requests` in order with `expand`
/// may give: one outcome for each request, up to and with the first
/// failure, after which nothing is expanded.
pub open spec fn are_outcomes_of<'a, F>(
    expand: F,
    requests: Seq<(&'a InstallTargetPaths, &'a str)>,
    outcomes: Seq<Outcome>,
) -> bool where F: Fn(&InstallTargetPaths, &str) -> Outcome {
    &&& outcomes.len() <= requests.len()
    &&& forall|i: int|
        0 <= i < outcomes.len() ==> call_ensures(expand, requests[i], #[trigger] outcomes[i])
    &&& forall|i: int| 0 <= i < outcomes.len() - 1 ==> (#[trigger] outcomes[i]) is Ok
    &&& outcomes.len() < requests.len() ==> outcomes.len() > 0 && outcomes.last() is Err
}

/// Whether `r` is a resolution of `targets`: the files of the outcomes of
/// the expansions that the declarations call for, or their first failure.
pub open spec fn is_resolution_of<'a, F>(
    expand: F,
    targets: Seq<InstallTarget>,
    root_path: &'a str,
    root_output: Option<&'a str>,
    r: Result<Vec<PathPair>, Error>,
) -> bool where F: Fn(&InstallTargetPaths, &str) -> Outcome {
    exists|outcomes: Seq<Outcome>|
        {
            &&& are_outcomes_of(expand, requests_of(targets, root_path, root_output), outcomes)
            &&& items_of(r) == collected(flattened(outcomes))
        }
}

/// Whether `expand` may be called on every expansion that `targets` calls
/// for.
pub open spec fn accepts_requests_of<'a, F>(
    expand: F,
    targets: Seq<InstallTarget>,
    root_path: &'a str,
    root_output: Option<&'a str>,
) -> bool where F: Fn(&InstallTargetPaths, &str) -> Outcome {
    forall|i: int|
        0 <= i < requests_of(targets, root_path, root_output).len() ==> call_requires(
            expand,
            #[trigger] requests_of(targets, root_path, root_output)[i],
        )
}

/// Whether a set-up that found `before` may end with `after` and `r`,
/// given what the data files resolve to once the new headers are in place.
pub open spec fn setup_ends_with_data<'a, F>(
    expand: F,
    capi_config: &CApiConfig,
    root_dir: &'a str,
    out_dir: Option<&'a str>,
    before: ExtraTargets,
    new_headers: Vec<PathPair>,
    after: ExtraTargets,
    r: Result<(), Error>,
) -> bool where F: Fn(&InstallTargetPaths, &str) -> Outcome {
    exists|data: Result<Vec<PathPair>, Error>|
        {
            &&& is_resolution_of(expand, capi_config.install.data@, root_dir, out_dir, data)
            &&& match data {
                Ok(new_data) => {
                    &&& r == Ok::<(), Error>(())
                    &&& after == (ExtraTargets { headers: new_headers, data: new_data })
                },
                Err(e) => {
                    &&& r == Err::<(), Error>(e)
                    &&& after == (ExtraTargets { headers: new_headers, data: before.data })
                },
            }
        }
}

/// Whether a set-up that found `before` may end with `after` and `r`: the
/// headers are resolved first, and the data files only if that went well.
pub open spec fn setup_ends_with<'a, F>(
    expand: F,
    capi_config: &CApiConfig,
    root_dir: &'a str,
    out_dir: Option<&'a str>,
    before: ExtraTargets,
    after: ExtraTargets,
    r: Result<(), Error>,
) -> bool where F: Fn(&InstallTargetPaths, &str) -> Outcome {
    exists|headers: Result<Vec<PathPair>, Error>|
        {
            &&& is_resolution_of(expand, capi_config.install.headers@, root_dir, out_dir, headers)
            &&& match headers {
                Ok(new_headers) => setup_ends_with_data(
                    expand,
                    capi_config,
                    root_dir,
                    out_dir,
                    before,
                    new_headers,
                    after,
                    r,
                ),
                Err(e) => r == Err::<(), Error>(e) && after == before,
            }
        }
}

/// Calls `itertools::Itertools::flatten_ok` on the outcomes in order and
/// gathers what it yields. Trusted: as the adaptor's documentation says,
/// every success is replaced by its items, each a success of its own, and
/// every failure is passed on unchanged, all in the order they came in.
#[verifier::external_body]
fn flatten_ok<T, E>(groups: Vec<Result<Vec<T>, E>>) -> (r: Vec<Result<T, E>>)
    ensures
        r@ == flattened(groups@),
{
    itertools::Itertools::flatten_ok(groups.into_iter()).collect()
}

impl InstallTarget {
    /// The expansion that this declaration calls for, if any.
    pub fn request<'a>(&'a self, root_path: &'a str, root_output: Option<&'a str>) -> (r: Option<
        (&'a InstallTargetPaths, &'a str),
    >)
        ensures
            r == request_of(self, root_path, root_output),
    {
        match self {
            InstallTarget::Asset(paths) => Some((paths, root_path)),
            InstallTarget::Generated(paths) => match root_output {
                Some(root) => Some((paths, root)),
                None => None,
            },
        }
    }
}

/// The expansions that a list of declarations calls for, in the order of
/// the declarations.
pub fn requests<'a>(
    targets: &'a [InstallTarget],
    root_path: &'a str,
    root_output: Option<&'a str>,
) -> (r: Vec<(&'a InstallTargetPaths, &'a str)>)
    ensures
        r@ == requests_of(targets@, root_path, root_output),
{
    let mut found: Vec<(&'a InstallTargetPaths, &'a str)> = Vec::new();
    let mut i: usize = 0;
    while i < targets.len()
        invariant
            i <= targets.len(),
            found@ == requests_of(targets@.take(i as int), root_path, root_output),
        decreases targets.len() - i,
    {
        proof {
            assert(targets@.take(i + 1).drop_last() =~= targets@.take(i as int));
        }
        match targets[i].request(root_path, root_output) {
            Some(request) => found.push(request),
            None => {},
        }
        i += 1;
    }
    proof {
        assert(targets@.take(i as int) =~= targets@);
    }
    found
}

/// The items of a list, in order, if all are successes; else its first
/// failure.
pub fn collect<T, E>(items: Vec<Result<T, E>>) -> (r: Result<Vec<T>, E>)
    ensures
        items_of(r) == collected(items@),
{
    let ghost all = items@;
    let mut successes: Vec<T> = Vec::new();
    for item in it: items.into_iter()
        invariant
            it.seq() == all,
            collected(all.take(it.index() as int)) == Ok::<Seq<T>, E>(successes@),
    {
        proof {
            assert(all.take(it.index() + 1).drop_last() =~= all.take(it.index() as int));
        }
        match item {
            Ok(value) => successes.push(value),
            Err(e) => {
                proof {
                    lemma_collected_failure_stays(all, it.index() + 1);
                }
                return Err(e);
            },
        }
    }
    proof {
        assert(all.take(all.len() as int) =~= all);
    }
    Ok(successes)
}

/// The files that a list of outcomes stands for, in the order of the
/// outcomes and, within one outcome, in the order they were found; or the
/// first failure among the outcomes, with no file at all.
pub fn collect_pairs(outcomes: Vec<Outcome>) -> (r: Result<Vec<PathPair>, Error>)
    ensures
        items_of(r) == collected(flattened(outcomes@)),
{
    collect(flatten_ok(outcomes))
}

/// Expands the requests in order, and stops after the first that fails.
fn expand_each<'a, F>(requests: &Vec<(&'a InstallTargetPaths, &'a str)>, expand: &F) -> (r: Vec<
    Outcome,
>) where F: Fn(&InstallTargetPaths, &str) -> Outcome
    requires
        forall|i: int| 0 <= i < requests.len() ==> call_requires(*expand, #[trigger] requests[i]),
    ensures
        are_outcomes_of(*expand, requests@, r@),
{
    let mut outcomes: Vec<Outcome> = Vec::new();
    let mut failed = false;
    while outcomes.len() < requests.len() && !failed
        invariant
            outcomes.len() <= requests.len(),
            forall|i: int| 0 <= i < requests.len() ==> call_requires(*expand, #[trigger] requests[i]),
            forall|i: int|
                0 <= i < outcomes.len() ==> call_ensures(
                    *expand,
                    requests[i],
                    #[trigger] outcomes[i],
                ),
            forall|i: int| 0 <= i < outcomes.len() - 1 ==> (#[trigger] outcomes[i]) is Ok,
            failed <==> outcomes.len() > 0 && outcomes@.last() is Err,
        decreases requests.len() - outcomes.len() + if failed { 0int } else { 1int },
    {
        let (paths, root) = requests[outcomes.len()];
        let outcome = expand(paths, root);
        failed = outcome.is_err();
        outcomes.push(outcome);
    }
    outcomes
}

/// Resolves a list of declarations into the files to install. Each
/// declaration that calls for an expansion is expanded with `expand`, in
/// the order of the declarations; the files found are put in one list, in
/// that order and, within one declaration, in the order they were found.
/// The first expansion that fails ends the resolution with its failure,
/// and no file is returned.
pub fn extra_targets<F>(
    targets: &[InstallTarget],
    root_path: &str,
    root_output: Option<&str>,
    expand: &F,
) -> (r: Result<Vec<PathPair>, Error>) where F: Fn(&InstallTargetPaths, &str) -> Outcome
    requires
        accepts_requests_of(*expand, targets@, root_path, root_output),
    ensures
        is_resolution_of(*expand, targets@, root_path, root_output, r),
{
    let wanted = requests(targets, root_path, root_output);
    let outcomes = expand_each(&wanted, expand);
    collect_pairs(outcomes)
}

impl ExtraTargets {
    /// Resolves the declarations of `capi_config` against the source tree
    /// `root_dir` and, where there is one, the build output `out_dir`: the
    /// headers first, then the data files. A failure among the headers
    /// leaves the lists as they were; one among the data files leaves the
    /// new headers and the old data files.
    pub fn setup<F>(
        &mut self,
        capi_config: &CApiConfig,
        root_dir: &str,
        out_dir: Option<&str>,
        expand: &F,
    ) -> (r: Result<(), Error>) where F: Fn(&InstallTargetPaths, &str) -> Outcome
        requires
            accepts_requests_of(*expand, capi_config.install.headers@, root_dir, out_dir),
            accepts_requests_of(*expand, capi_config.install.data@, root_dir, out_dir),
        ensures
            setup_ends_with(*expand, capi_config, root_dir, out_dir, *old(self), *final(self), r),
    {
        let headers = extra_targets(capi_config.install.headers.as_slice(), root_dir, out_dir, expand);
        let ghost headers_found = headers;
        match headers {
            Ok(found) => {
                self.headers = found;
            },
            Err(e) => {
                return Err(e);
            },
        }
        let data = extra_targets(capi_config.install.data.as_slice(), root_dir, out_dir, expand);
        match data {
            Ok(found) => {
                self.data = found;
            },
            Err(e) => {
                proof {
                    assert(setup_ends_with_data(
                        *expand,
                        capi_config,
                        root_dir,
                        out_dir,
                        *old(self),
                        headers_found->Ok_0,
                        *self,
                        Err(e),
                    ));
                }
                return Err(e);
            },
        }
        proof {
            assert(setup_ends_with_data(
                *expand,
                capi_config,
                root_dir,
                out_dir,
                *old(self),
                headers_found->Ok_0,
                *self,
                Ok(()),
            ));
        }
        Ok(())
    }
}

/// A declaration of files in the source tree is expanded against the
/// source root, whether or not there is a build output, and wherever it
/// stands among the declarations.
pub proof fn lemma_asset_is_expanded_against_the_source_root<'a>(
    before: Seq<InstallTarget>,
    paths: InstallTargetPaths,
    after: Seq<InstallTarget>,
    root_path: &'a str,
    root_output: Option<&'a str>,
)
    ensures
        request_of(&InstallTarget::Asset(paths), root_path, root_output) == Some(
            (&paths, root_path),
        ),
        requests_of(before.push(InstallTarget::Asset(paths)) + after, root_path, root_output)
            == requests_of(before, root_path, root_output).push((&paths, root_path)) + requests_of(
            after,
            root_path,
            root_output,
        ),
{
    let declared = before.push(InstallTarget::Asset(paths));
    assert(declared.drop_last() =~= before);
    lemma_requests_keep_order(declared, after, root_path, root_output);
}

/// While there is no build output, a declaration of generated files calls
/// for nothing: the resolution goes as if it were not declared.
pub proof fn lemma_generated_is_passed_over_without_output<'a>(
    before: Seq<InstallTarget>,
    paths: InstallTargetPaths,
    after: Seq<InstallTarget>,
    root_path: &'a str,
)
    ensures
        request_of(&InstallTarget::Generated(paths), root_path, None) is None,
        requests_of(before.push(InstallTarget::Generated(paths)) + after, root_path, None)
            == requests_of(before + after, root_path, None),
{
    let declared = before.push(InstallTarget::Generated(paths));
    assert(declared.drop_last() =~= before);
    lemma_requests_keep_order(declared, after, root_path, None);
    lemma_requests_keep_order(before, after, root_path, None);
}

/// With a build output, a declaration of generated files is expanded
/// against it, wherever it stands among the declarations.
pub proof fn lemma_generated_is_expanded_against_the_output<'a>(
    before: Seq<InstallTarget>,
    paths: InstallTargetPaths,
    after: Seq<InstallTarget>,
    root_path: &'a str,
    root_output: &'a str,
)
    ensures
        requests_of(
            before.push(InstallTarget::Generated(paths)) + after,
            root_path,
            Some(root_output),
        ) == requests_of(before, root_path, Some(root_output)).push((&paths, root_output))
            + requests_of(after, root_path, Some(root_output)),
{
    let declared = before.push(InstallTarget::Generated(paths));
    assert(declared.drop_last() =~= before);
    lemma_requests_keep_order(declared, after, root_path, Some(root_output));
}

/// While there is no build output, declarations of generated files alone
/// call for no expansion at all.
pub proof fn lemma_generated_alone_call_for_nothing<'a>(
    targets: Seq<InstallTarget>,
    root_path: &'a str,
)
    requires
        forall|i: int| 0 <= i < targets.len() ==> (#[trigger] targets[i]) is Generated,
    ensures
        requests_of(targets, root_path, None).len() == 0,
    decreases targets.len(),
{
    if targets.len() > 0 {
        lemma_generated_alone_call_for_nothing(targets.drop_last(), root_path);
    }
}

/// Where the declarations call for no expansion, the resolution succeeds
/// with no file, whatever `expand` would do.
pub proof fn lemma_resolution_of_nothing<'a, F>(
    expand: F,
    targets: Seq<InstallTarget>,
    root_path: &'a str,
    root_output: Option<&'a str>,
    r: Result<Vec<PathPair>, Error>,
) where F: Fn(&InstallTargetPaths, &str) -> Outcome
    requires
        requests_of(targets, root_path, root_output).len() == 0,
        is_resolution_of(expand, targets, root_path, root_output, r),
    ensures
        r is Ok,
        r->Ok_0@.len() == 0,
{
    let outcomes = choose|outcomes: Seq<Outcome>|
        {
            &&& are_outcomes_of(expand, requests_of(targets, root_path, root_output), outcomes)
            &&& items_of(r) == collected(flattened(outcomes))
        };
    assert(outcomes.len() == 0);
}

/// The expansions come in the order of the declarations: those of one
/// list of declarations after another are those of the first list, then
/// those of the second.
pub proof fn lemma_requests_keep_order<'a>(
    first: Seq<InstallTarget>,
    second: Seq<InstallTarget>,
    root_path: &'a str,
    root_output: Option<&'a str>,
)
    ensures
        requests_of(first + second, root_path, root_output) == requests_of(
            first,
            root_path,
            root_output,
        ) + requests_of(second, root_path, root_output),
    decreases second.len(),
{
    if second.len() == 0 {
        assert(first + second =~= first);
    } else {
        assert((first + second).drop_last() =~= first + second.drop_last());
        lemma_requests_keep_order(first, second.drop_last(), root_path, root_output);
    }
}

/// Laying out one list of outcomes after another gives the items of the
/// first, then those of the second.
pub proof fn lemma_flattened_keeps_order<T, E>(
    first: Seq<Result<Vec<T>, E>>,
    second: Seq<Result<Vec<T>, E>>,
)
    ensures
        flattened(first + second) == flattened(first) + flattened(second),
    decreases second.len(),
{
    if second.len() == 0 {
        assert(first + second =~= first);
    } else {
        assert((first + second).drop_last() =~= first + second.drop_last());
        lemma_flattened_keeps_order(first, second.drop_last());
    }
}

/// Collecting one list of items after another gives the first failure of
/// the two, or the items of both in a row.
pub proof fn lemma_collected_keeps_order<T, E>(first: Seq<Result<T, E>>, second: Seq<Result<T, E>>)
    ensures
        collected(first + second) == followed_by(collected(first), collected(second)),
    decreases second.len(),
{
    if second.len() == 0 {
        assert(first + second =~= first);
        if collected(first) is Ok {
            assert(collected(first)->Ok_0 + Seq::<T>::empty() =~= collected(first)->Ok_0);
        }
    } else {
        assert((first + second).drop_last() =~= first + second.drop_last());
        lemma_collected_keeps_order(first, second.drop_last());
        if collected(first) is Ok && collected(second.drop_last()) is Ok && second.last() is Ok {
            let a = collected(first)->Ok_0;
            let b = collected(second.drop_last())->Ok_0;
            assert((a + b).push(second.last()->Ok_0) =~= a + b.push(second.last()->Ok_0));
        }
    }
}

/// The resolution of a single outcome is that outcome: its files in the
/// order they were found, or its failure.
pub proof fn lemma_resolution_of_one<T, E>(outcome: Result<Vec<T>, E>)
    ensures
        collected(flattened(seq![outcome])) == items_of(outcome),
{
    let one = seq![outcome];
    assert(one.drop_last() =~= Seq::empty());
    assert(flattened(one.drop_last()) =~= Seq::empty());
    assert(flattened(one) =~= spread(outcome));
    match outcome {
        Ok(items) => {
            lemma_collected_of_successes::<T, E>(items@);
        },
        Err(e) => {
            assert(spread(outcome).drop_last() =~= Seq::empty());
            assert(collected(spread(outcome).drop_last()) == Ok::<Seq<T>, E>(Seq::empty()));
        },
    }
}

/// The files of a resolution stand in the order of the outcomes, and a
/// failure among the earlier outcomes hides the later ones: the resolution
/// of one list of outcomes after another is the first failure of the two
/// resolutions, or the files of both in a row.
pub proof fn lemma_resolution_keeps_order<T, E>(
    first: Seq<Result<Vec<T>, E>>,
    second: Seq<Result<Vec<T>, E>>,
)
    ensures
        collected(flattened(first + second)) == followed_by(
            collected(flattened(first)),
            collected(flattened(second)),
        ),
{
    lemma_flattened_keeps_order(first, second);
    lemma_collected_keeps_order(flattened(first), flattened(second));
}

/// A list of successes collects to its items.
proof fn lemma_collected_of_successes<T, E>(items: Seq<T>)
    ensures
        collected(items.map_values(|item: T| Ok::<T, E>(item))) == Ok::<Seq<T>, E>(items),
    decreases items.len(),
{
    let successes = items.map_values(|item: T| Ok::<T, E>(item));
    if items.len() == 0 {
        assert(items =~= Seq::empty());
    } else {
        assert(successes.drop_last() =~= items.drop_last().map_values(|item: T| Ok::<T, E>(item)));
        lemma_collected_of_successes::<T, E>(items.drop_last());
        assert(items.drop_last().push(items.last()) =~= items);
    }
}

/// An error among the first items of a list decides what the whole list
/// collects to.
proof fn lemma_collected_failure_stays<T, E>(items: Seq<Result<T, E>>, n: int)
    requires
        0 <= n <= items.len(),
        collected(items.take(n)) is Err,
    ensures
        collected(items) == collected(items.take(n)),
    decreases items.len() - n,
{
    if n == items.len() {
        assert(items.take(n) =~= items);
    } else {
        assert(items.take(n + 1).drop_last() =~= items.take(n));
        lemma_collected_failure_stays(items, n + 1);
    }
}

} // verus!

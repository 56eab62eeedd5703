//! The positioned parse error, the registry of grammars, and the choice
//! among what the grammars make of one input.
use crate::common_parsers::Parsed;
use crate::identifiers::{landsat, sentinel2, sentinel3};
use crate::input::Input;
use crate::{Identifier, IdentifierView};
use vstd::prelude::*;

verus! {

/// Why a string was not accepted, and where.
#[derive(Debug, Clone, Copy, PartialEq, Eq, Structural)]
pub enum ParseError {
    /// The input ended too early; holds how many more characters were needed,
    /// or 0 where that is not known.
    NotEnoughData(usize),
    /// The character at this position, counted from the start of the input,
    /// does not fit what was expected there.
    FailedAtPosition(usize),
}

impl ParseError {
    /// The offset of the error, whatever its kind.
    pub open spec fn pos(self) -> usize {
        match self {
            ParseError::NotEnoughData(p) => p,
            ParseError::FailedAtPosition(p) => p,
        }
    }

    /// The offset by which two errors are compared.
    pub fn error_pos(&self) -> (p: usize)
        ensures
            p == self.pos(),
    {
        match self {
            ParseError::NotEnoughData(p) => *p,
            ParseError::FailedAtPosition(p) => *p,
        }
    }
}

/// The offset of the error of a failed attempt.
pub open spec fn failed_at<V>(outcome: Result<V, ParseError>) -> int {
    outcome->Err_0.pos() as int
}

/// All of `outcomes` before index `i` are failures.
pub open spec fn all_failed_before<V>(outcomes: Seq<Result<V, ParseError>>, i: int) -> bool {
    forall|j: int| 0 <= j < i ==> (#[trigger] outcomes[j]) is Err
}

/// All of `outcomes` are failures, and the one at index `k` is the first
/// among those that got furthest: none got further, and none before it got
/// as far.
pub open spec fn furthest_failure<V>(outcomes: Seq<Result<V, ParseError>>, k: int) -> bool {
    &&& 0 <= k < outcomes.len()
    &&& all_failed_before(outcomes, outcomes.len() as int)
    &&& forall|j: int|
        0 <= j < outcomes.len() ==> failed_at(#[trigger] outcomes[j]) <= failed_at(outcomes[k])
    &&& forall|j: int| 0 <= j < k ==> failed_at(#[trigger] outcomes[j]) < failed_at(outcomes[k])
}

/// `result` is what is made of `outcomes`, the results of the attempts in
/// the order of the registry: the first success, or where there is none the
/// error of the failure that got furthest, the first of them where several
/// got as far. Of no attempt at all it is `NotEnoughData(0)`.
pub open spec fn chosen<V>(
    outcomes: Seq<Result<V, ParseError>>,
    result: Result<V, ParseError>,
) -> bool {
    match result {
        Ok(v) => exists|i: int|
            0 <= i < outcomes.len() && #[trigger] outcomes[i] == Ok::<V, ParseError>(v)
                && all_failed_before(outcomes, i),
        Err(e) => if outcomes.len() == 0 {
            e == ParseError::NotEnoughData(0)
        } else {
            exists|k: int|
                furthest_failure(outcomes, k) && #[trigger] outcomes[k] == Err::<V, ParseError>(e)
        },
    }
}

/// Only one result is what is made of given outcomes.
pub proof fn law_choice_is_unique<V>(
    outcomes: Seq<Result<V, ParseError>>,
    a: Result<V, ParseError>,
    b: Result<V, ParseError>,
)
    requires
        chosen(outcomes, a),
        chosen(outcomes, b),
    ensures
        a == b,
{
}

/// Where every grammar fails and one of them gets further than each of the
/// others, its error is the one that is given.
pub proof fn law_furthest_error_is_given<V>(
    outcomes: Seq<Result<V, ParseError>>,
    result: Result<V, ParseError>,
    k: int,
)
    requires
        chosen(outcomes, result),
        0 <= k < outcomes.len(),
        all_failed_before(outcomes, outcomes.len() as int),
        forall|j: int|
            0 <= j < outcomes.len() && j != k ==> failed_at(#[trigger] outcomes[j]) < failed_at(
                outcomes[k],
            ),
    ensures
        result == outcomes[k],
{
}

/// Where every grammar fails, the error that is given is the first, in the
/// order of the registry, of those that got furthest.
pub proof fn law_first_of_the_furthest_is_given<V>(
    outcomes: Seq<Result<V, ParseError>>,
    result: Result<V, ParseError>,
    k: int,
)
    requires
        chosen(outcomes, result),
        furthest_failure(outcomes, k),
    ensures
        result == outcomes[k],
{
}

/// Where several grammars accept the input, the result of the one that is
/// earliest in the registry is given.
pub proof fn law_first_success_is_given<V>(
    outcomes: Seq<Result<V, ParseError>>,
    result: Result<V, ParseError>,
    i: int,
)
    requires
        chosen(outcomes, result),
        0 <= i < outcomes.len(),
        outcomes[i] is Ok,
        all_failed_before(outcomes, i),
    ensures
        result == outcomes[i],
{
}

/// An error is given only where every grammar failed, and a success only
/// where one of them succeeded.
pub proof fn law_failure_means_all_failed<V>(
    outcomes: Seq<Result<V, ParseError>>,
    result: Result<V, ParseError>,
)
    requires
        chosen(outcomes, result),
    ensures
        result is Err <==> all_failed_before(outcomes, outcomes.len() as int),
{
}

/// The grammars that an identifier is tried against.
#[derive(Debug, Clone, Copy, PartialEq, Eq, Structural)]
pub enum Grammar {
    Sentinel2Product,
    Sentinel3Product,
    LandsatProduct,
    LandsatSceneId,
}

/// What a grammar made of an input: the value without the position.
pub open spec fn identified<V>(
    p: Parsed<V>,
    wrap: spec_fn(V) -> IdentifierView,
) -> Result<IdentifierView, ParseError> {
    match p {
        Ok((v, _)) => Ok(wrap(v)),
        Err(e) => Err(e),
    }
}

/// A result with the value replaced by its view.
pub open spec fn result_view<T: View>(r: Result<T, ParseError>) -> Result<T::V, ParseError> {
    match r {
        Ok(v) => Ok(v@),
        Err(e) => Err(e),
    }
}

impl Grammar {
    /// What this grammar makes of the input `s`.
    pub open spec fn outcome(self, s: Seq<char>) -> Result<IdentifierView, ParseError> {
        match self {
            Grammar::Sentinel2Product => identified(
                sentinel2::product_at(s),
                |p| IdentifierView::Sentinel2Product(p),
            ),
            Grammar::Sentinel3Product => identified(
                sentinel3::product_at(s),
                |p| IdentifierView::Sentinel3Product(p),
            ),
            Grammar::LandsatProduct => identified(
                landsat::product_at(s),
                |p| IdentifierView::LandsatProduct(p),
            ),
            Grammar::LandsatSceneId => identified(
                landsat::scene_id_at(s),
                |p| IdentifierView::LandsatSceneId(p),
            ),
        }
    }

    /// Tries this grammar on the whole of `s`. What follows the identifier
    /// in `s` is not looked at.
    pub fn attempt(&self, s: &Input) -> (r: Result<Identifier, ParseError>)
        ensures
            result_view(r) == self.outcome(s@),
            r matches Ok(id) ==> id@.is_valid(),
    {
        match self {
            Grammar::Sentinel2Product => match sentinel2::product(s) {
                Ok((p, _)) => Ok(Identifier::Sentinel2Product(p)),
                Err(e) => Err(e),
            },
            Grammar::Sentinel3Product => match sentinel3::product(s) {
                Ok((p, _)) => Ok(Identifier::Sentinel3Product(p)),
                Err(e) => Err(e),
            },
            Grammar::LandsatProduct => match landsat::product(s) {
                Ok((p, _)) => Ok(Identifier::LandsatProduct(p)),
                Err(e) => Err(e),
            },
            Grammar::LandsatSceneId => match landsat::scene_id(s) {
                Ok((p, _)) => Ok(Identifier::LandsatSceneId(p)),
                Err(e) => Err(e),
            },
        }
    }
}

/// No text is accepted by two grammars: each kind of name starts in a way
/// of its own. So the order of the registry decides only which error is
/// given where every grammar fails.
pub proof fn law_one_grammar_at_most(s: Seq<char>, g: Grammar, h: Grammar)
    requires
        g != h,
    ensures
        !(g.outcome(s) is Ok && h.outcome(s) is Ok),
{
    if g.outcome(s) is Ok && h.outcome(s) is Ok {
        match g {
            Grammar::Sentinel2Product => sentinel2::lemma_product_start(s),
            Grammar::Sentinel3Product => sentinel3::lemma_product_start(s),
            Grammar::LandsatProduct => landsat::lemma_product_start(s),
            Grammar::LandsatSceneId => landsat::lemma_scene_id_start(s),
        }
        match h {
            Grammar::Sentinel2Product => sentinel2::lemma_product_start(s),
            Grammar::Sentinel3Product => sentinel3::lemma_product_start(s),
            Grammar::LandsatProduct => landsat::lemma_product_start(s),
            Grammar::LandsatSceneId => landsat::lemma_scene_id_start(s),
        }
    }
}

/// The order in which the grammars are tried: Sentinel 2 products,
/// Sentinel 3 products, Landsat products, Landsat scene ids.
pub open spec fn registry_order() -> Seq<Grammar> {
    seq![
        Grammar::Sentinel2Product,
        Grammar::Sentinel3Product,
        Grammar::LandsatProduct,
        Grammar::LandsatSceneId,
    ]
}

/// The grammars in the order in which they are tried.
pub fn registry() -> (r: [Grammar; 4])
    ensures
        r@ == registry_order(),
{
    let r = [
        Grammar::Sentinel2Product,
        Grammar::Sentinel3Product,
        Grammar::LandsatProduct,
        Grammar::LandsatSceneId,
    ];
    assert(r@ =~= registry_order());
    r
}

/// What each of `grammars` makes of `s`, in their order.
pub open spec fn outcomes_of(s: Seq<char>, grammars: Seq<Grammar>) -> Seq<
    Result<IdentifierView, ParseError>,
> {
    Seq::new(grammars.len(), |i: int| grammars[i].outcome(s))
}

/// The error to keep of the furthest so far and a new one: the new one only
/// where it got further.
pub fn keep_furthest(best: Option<ParseError>, e: ParseError) -> (r: ParseError)
    ensures
        r == match best {
            Some(b) => if e.pos() > b.pos() {
                e
            } else {
                b
            },
            None => e,
        },
{
    match best {
        Some(b) => if e.error_pos() > b.error_pos() {
            e
        } else {
            b
        },
        None => e,
    }
}

/// Chooses among the results of attempts, given in the order of the
/// registry.
pub fn select<T>(outcomes: &[Result<T, ParseError>]) -> (r: Result<&T, ParseError>)
    ensures
        chosen(
            outcomes@,
            match r {
                Ok(v) => Ok(*v),
                Err(e) => Err(e),
            },
        ),
{
    let mut best: Option<ParseError> = None;
    let ghost mut k: int = 0;
    let mut i: usize = 0;
    while i < outcomes.len()
        invariant
            i <= outcomes.len(),
            all_failed_before(outcomes@, i as int),
            best is None <==> i == 0,
            best matches Some(b) ==> 0 <= k < i && outcomes@[k] == Err::<T, ParseError>(b),
            forall|j: int| 0 <= j < i ==> failed_at(#[trigger] outcomes@[j]) <= failed_at(outcomes@[k]),
            forall|j: int| 0 <= j < k ==> failed_at(#[trigger] outcomes@[j]) < failed_at(outcomes@[k]),
        decreases outcomes.len() - i,
    {
        match &outcomes[i] {
            Ok(v) => {
                return Ok(v);
            },
            Err(e) => {
                let kept = keep_furthest(best, *e);
                proof {
                    if kept == *e && (best is None || e.pos() > best->Some_0.pos()) {
                        k = i as int;
                    }
                }
                best = Some(kept);
            },
        }
        i += 1;
    }
    match best {
        Some(b) => Err(b),
        None => Err(ParseError::NotEnoughData(0)),
    }
}

/// Tries `grammars` in their order on `s` and gives the first identifier
/// that one of them reads, or else the error of the grammar that got
/// furthest.
pub fn resolve(s: &str, grammars: &[Grammar]) -> (r: Result<Identifier, ParseError>)
    ensures
        chosen(outcomes_of(s@, grammars@), result_view(r)),
        r matches Ok(id) ==> id@.is_valid(),
{
    let input = Input::new(s);
    let ghost outcomes = outcomes_of(s@, grammars@);
    let mut best: Option<ParseError> = None;
    let ghost mut k: int = 0;
    let mut i: usize = 0;
    while i < grammars.len()
        invariant
            i <= grammars.len() == outcomes.len(),
            input@ == s@,
            outcomes == outcomes_of(s@, grammars@),
            all_failed_before(outcomes, i as int),
            best is None <==> i == 0,
            best matches Some(b) ==> 0 <= k < i && outcomes[k] == Err::<IdentifierView, ParseError>(b),
            forall|j: int| 0 <= j < i ==> failed_at(#[trigger] outcomes[j]) <= failed_at(outcomes[k]),
            forall|j: int| 0 <= j < k ==> failed_at(#[trigger] outcomes[j]) < failed_at(outcomes[k]),
        decreases grammars.len() - i,
    {
        match grammars[i].attempt(&input) {
            Ok(id) => {
                assert(outcomes[i as int] == Ok::<IdentifierView, ParseError>(id@));
                return Ok(id);
            },
            Err(e) => {
                assert(outcomes[i as int] == Err::<IdentifierView, ParseError>(e));
                let kept = keep_furthest(best, e);
                proof {
                    if kept == e && (best is None || e.pos() > best->Some_0.pos()) {
                        k = i as int;
                    }
                }
                best = Some(kept);
            },
        }
        i += 1;
    }
    match best {
        Some(b) => Err(b),
        None => Err(ParseError::NotEnoughData(0)),
    }
}

/// Reads an identifier of any of the kinds in the registry.
pub fn identify(s: &str) -> (r: Result<Identifier, ParseError>)
    ensures
        chosen(outcomes_of(s@, registry_order()), result_view(r)),
        r matches Ok(id) ==> id@.is_valid(),
{
    let grammars = registry();
    resolve(s, &grammars)
}

/// What a parser gave, without the position.
pub open spec fn value_of<V>(p: Parsed<V>) -> Result<V, ParseError> {
    match p {
        Ok((v, _)) => Ok(v),
        Err(e) => Err(e),
    }
}

/// Gives the value that a parser read and drops the position that it
/// reached.
pub fn map_parser<T>(p: Parsed<T>) -> (r: Result<T, ParseError>)
    ensures
        r == value_of(p),
{
    match p {
        Ok((v, _)) => Ok(v),
        Err(e) => Err(e),
    }
}

impl std::str::FromStr for Identifier {
    type Err = ParseError;

    fn from_str(s: &str) -> (r: Result<Identifier, ParseError>)
        ensures
            chosen(outcomes_of(s@, registry_order()), result_view(r)),
    {
        identify(s)
    }
}

impl std::str::FromStr for sentinel2::Product {
    type Err = ParseError;

    fn from_str(s: &str) -> (r: Result<sentinel2::Product, ParseError>)
        ensures
            result_view(r) == value_of(sentinel2::product_at(s@)),
    {
        map_parser(sentinel2::product(&Input::new(s)))
    }
}

impl std::str::FromStr for sentinel3::Product {
    type Err = ParseError;

    fn from_str(s: &str) -> (r: Result<sentinel3::Product, ParseError>)
        ensures
            result_view(r) == value_of(sentinel3::product_at(s@)),
    {
        map_parser(sentinel3::product(&Input::new(s)))
    }
}

impl std::str::FromStr for landsat::Product {
    type Err = ParseError;

    fn from_str(s: &str) -> (r: Result<landsat::Product, ParseError>)
        ensures
            result_view(r) == value_of(landsat::product_at(s@)),
    {
        map_parser(landsat::product(&Input::new(s)))
    }
}

impl std::str::FromStr for landsat::SceneId {
    type Err = ParseError;

    fn from_str(s: &str) -> (r: Result<landsat::SceneId, ParseError>)
        ensures
            result_view(r) == value_of(landsat::scene_id_at(s@)),
    {
        map_parser(landsat::scene_id(&Input::new(s)))
    }
}

} // verus!

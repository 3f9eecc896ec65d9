//! The configuration that a TimeFlip2 is to have.

use crate::types::{BlinkInterval, Color, Facet, FacetError, FacetTask, Minutes, Percent};
use vstd::prelude::*;

verus! {

/// Configuration of a TimeFlip2 facet.
#[derive(Debug, PartialEq, Eq)]
pub struct Side {
    /// The facet that is configured.
    pub facet: Facet,
    /// The name of the facet.
    pub name: Option<String>,
    /// The color of the facet.
    pub color: Color,
    /// The task assigned to the facet.
    pub task: FacetTask,
}

impl Side {
    /// The side of a facet that was given no configuration: no name, black,
    /// a simple timer.
    pub open spec fn plain(facet: Facet) -> Side {
        Side { facet, name: None, color: Color::black(), task: FacetTask::Simple }
    }

    /// What [Side::default] returns.
    pub open spec fn default_spec(index: usize) -> Result<Side, FacetError> {
        match Facet::checked(index) {
            Ok(facet) => Ok(Side::plain(facet)),
            Err(e) => Err(e),
        }
    }

    /// Construct a side with default values.
    pub fn default(index: usize) -> (r: Result<Side, FacetError>)
        ensures
            r == Side::default_spec(index),
    {
        match Facet::new(index) {
            Ok(facet) => Ok(Side { facet, name: None, color: Color::default(), task: FacetTask::Simple }),
            Err(e) => Err(e),
        }
    }
}

/// Why a list of sides makes no configuration.
#[derive(Debug, Clone, Copy, PartialEq, Eq)]
pub enum ExpectedSides {
    /// More than 12 sides were given; holds their number.
    TooMany(usize),
    /// Two of the sides given configure the same facet.
    Duplicates,
}

/// Whether two of the sides configure the same facet.
pub open spec fn has_duplicates(sides: Seq<Side>) -> bool {
    exists|i: int, j: int|
        #![trigger sides[i], sides[j]]
        0 <= i < j < sides.len() && sides[i].facet == sides[j].facet
}

/// The place of a side among the twelve, counted from zero.
pub open spec fn slot(side: Side) -> int {
    side.facet.value() - 1
}

/// Whether one of the sides configures the facet with the given index.
pub open spec fn names_facet(sides: Seq<Side>, index: int) -> bool {
    exists|i: int| 0 <= i < sides.len() && #[trigger] sides[i].facet == Facet::at(index)
}

/// Whether the twelve sides are what the list of sides asks for: each facet,
/// in ascending order, with the side that the list gives it, or plain where
/// the list gives it none.
pub open spec fn completes(table: Seq<Side>, sides: Seq<Side>) -> bool {
    &&& table.len() == 12
    &&& forall|k: int| 0 <= k < 12 ==> (#[trigger] table[k]).facet == Facet::at(k + 1)
    &&& forall|i: int|
        0 <= i < sides.len() ==> 0 <= slot(#[trigger] sides[i]) < 12 && table[slot(sides[i])]
            == sides[i]
    &&& forall|k: int| 0 <= k < 12 && !names_facet(sides, k + 1) ==> #[trigger] table[k] == Side::plain(Facet::at(k + 1))
}

/// The twelve plain sides.
fn plain_sides() -> (table: [Side; 12])
    ensures
        forall|k: int| 0 <= k < 12 ==> #[trigger] table@[k] == Side::plain(Facet::at(k + 1)),
{
    [
        Side::default(1).unwrap(),
        Side::default(2).unwrap(),
        Side::default(3).unwrap(),
        Side::default(4).unwrap(),
        Side::default(5).unwrap(),
        Side::default(6).unwrap(),
        Side::default(7).unwrap(),
        Side::default(8).unwrap(),
        Side::default(9).unwrap(),
        Side::default(10).unwrap(),
        Side::default(11).unwrap(),
        Side::default(12).unwrap(),
    ]
}

/// Complete a list of sides to the twelve sides of a configuration.
///
/// Facets that the list does not name get a plain side. A list of more than
/// 12 sides is rejected, and a shorter one that names a facet twice.
#[verifier::loop_isolation(false)]
pub fn sides_from_vec(sides: Vec<Side>) -> (r: Result<[Side; 12], ExpectedSides>)
    ensures
        sides@.len() > 12 ==> r == Err::<[Side; 12], ExpectedSides>(
            ExpectedSides::TooMany(sides@.len() as usize),
        ),
        sides@.len() <= 12 && has_duplicates(sides@) ==> r == Err::<[Side; 12], ExpectedSides>(
            ExpectedSides::Duplicates,
        ),
        sides@.len() <= 12 && !has_duplicates(sides@) ==> r is Ok && completes(
            r->Ok_0@,
            sides@,
        ),
{
    let ghost given = sides@;
    let mut rest = sides;
    if rest.len() > 12 {
        return Err(ExpectedSides::TooMany(rest.len()));
    }
    let mut table: [Side; 12] = plain_sides();
    let mut taken: [bool; 12] = [false; 12];
    let ghost mut source: Seq<int> = Seq::new(12, |k: int| 0);
    while rest.len() > 0
        invariant
            rest@.len() <= given.len() <= 12,
            rest@ == given.subrange(0, rest@.len() as int),
            source.len() == 12,
            forall|k: int| 0 <= k < 12 ==> (#[trigger] table@[k]).facet == Facet::at(k + 1),
            forall|k: int|
                0 <= k < 12 && #[trigger] taken@[k] ==> rest@.len() <= source[k] < given.len()
                    && given[source[k]] == table@[k],
            forall|k: int|
                0 <= k < 12 && !(#[trigger] taken@[k]) ==> table@[k] == Side::plain(
                    Facet::at(k + 1),
                ),
            forall|i: int|
                rest@.len() <= i < given.len() ==> 0 <= slot(#[trigger] given[i]) < 12 && taken@[slot(
                    given[i],
                )] && table@[slot(given[i])] == given[i],
            forall|i: int, j: int|
                #![trigger given[i], given[j]]
                rest@.len() <= i < j < given.len() ==> given[i].facet != given[j].facet,
        decreases rest@.len(),
    {
        let ghost before = rest@.len() as int;
        let side = rest.pop().unwrap();
        let ghost at = rest@.len() as int;
        assert(side == given[at]);
        let k: usize = side.facet.index_zero();
        proof {
            side.facet.lemma_at_value();
        }
        if taken[k] {
            proof {
                assert(given[source[k as int]].facet == given[at].facet);
                assert(has_duplicates(given));
            }
            return Err(ExpectedSides::Duplicates);
        }
        proof {
            assert forall|j: int| at < j < given.len() implies given[at].facet
                != (#[trigger] given[j]).facet by {
                assert(taken@[slot(given[j])]);
            }
        }
        taken[k] = true;
        table[k] = side;
        proof {
            source = source.update(k as int, at);
            assert(rest@ =~= given.subrange(0, at));
        }
    }
    proof {
        assert forall|k: int| 0 <= k < 12 && !names_facet(given, k + 1) implies #[trigger] table@[k]
            == Side::plain(Facet::at(k + 1)) by {
            if taken@[k] {
                assert(given[source[k]].facet == Facet::at(k + 1));
            }
        }
    }
    Ok(table)
}

/// Configuration of a TimeFlip2.
#[derive(Debug, PartialEq, Eq)]
pub struct Config {
    /// The password to access the TimeFlip2.
    pub password: [u8; 6],
    /// Brightness of the TimeFlip2's LED.
    pub brightness: Percent,
    /// Blink interval of the TimeFlip2's LED, when not paused.
    pub blink_interval: BlinkInterval,
    /// Time after which activity is automatically paused.
    pub auto_pause: Minutes,
    /// Configuration for each facet/side.
    pub sides: [Side; 12],
}

impl Config {
    /// Whether the sides are those of the facets 1 to 12, in this order.
    pub open spec fn well_formed(self) -> bool {
        forall|k: int| 0 <= k < 12 ==> (#[trigger] self.sides@[k]).facet == Facet::at(k + 1)
    }

    /// Make a configuration from its settings and a list of sides, which is
    /// completed as [sides_from_vec] does and rejected where it rejects.
    pub fn new(
        password: [u8; 6],
        brightness: Percent,
        blink_interval: BlinkInterval,
        auto_pause: Minutes,
        sides: Vec<Side>,
    ) -> (r: Result<Config, ExpectedSides>)
        ensures
            sides@.len() > 12 ==> r == Err::<Config, ExpectedSides>(
                ExpectedSides::TooMany(sides@.len() as usize),
            ),
            sides@.len() <= 12 && has_duplicates(sides@) ==> r == Err::<Config, ExpectedSides>(
                ExpectedSides::Duplicates,
            ),
            sides@.len() <= 12 && !has_duplicates(sides@) ==> r is Ok && {
                let config = r->Ok_0;
                &&& config.password == password
                &&& config.brightness == brightness
                &&& config.blink_interval == blink_interval
                &&& config.auto_pause == auto_pause
                &&& completes(config.sides@, sides@)
                &&& config.well_formed()
            },
    {
        match sides_from_vec(sides) {
            Ok(sides) => Ok(Config { password, brightness, blink_interval, auto_pause, sides }),
            Err(e) => Err(e),
        }
    }

    /// The configuration of a device that was given none: the factory
    /// password, full brightness, a blink every 30 seconds, a pause after
    /// eight hours, and twelve plain sides.
    pub open spec fn factory(self) -> bool {
        &&& self.password@ == seq![0x30u8, 0x30u8, 0x30u8, 0x30u8, 0x30u8, 0x30u8]
        &&& self.brightness == Percent::of(100)
        &&& self.blink_interval == BlinkInterval::of(30)
        &&& self.auto_pause == Minutes(480)
        &&& completes(self.sides@, Seq::empty())
        &&& self.well_formed()
    }
}

impl Default for Config {
    fn default() -> (r: Config)
        ensures
            r.factory(),
    {
        let password: [u8; 6] = [0x30, 0x30, 0x30, 0x30, 0x30, 0x30];
        assert(password@ =~= seq![0x30u8, 0x30u8, 0x30u8, 0x30u8, 0x30u8, 0x30u8]);
        Config {
            password,
            brightness: Percent::new(100).unwrap(),
            blink_interval: BlinkInterval::new(30).unwrap(),
            auto_pause: Minutes(8 * 60),
            sides: sides_from_vec(Vec::new()).unwrap(),
        }
    }
}

} // verus!

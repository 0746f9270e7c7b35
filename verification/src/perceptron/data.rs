//! Labelled points, drawn at random.
use crate::perceptron::function::Function;
use crate::perceptron::label::Label;
use crate::perceptron::position::Position;
use crate::scalar::{drawn, exact, make_constant, spread_defined, spreadable, Scalar};
use vstd::prelude::*;

verus! {

/// A point with its true class and, once the network has been asked, the
/// class that the network gave it.
pub struct DataPoint<T> {
    pub position: Position<T>,
    pub label: Label,
    pub guess: Option<Label>,
}

/// The points that the network is trained and tried on.
pub struct DataSet<T> {
    pub points: Vec<DataPoint<T>>,
}

/// `point` is a point as `DataPoint::random` makes it: both coordinates are
/// samples of `unit` spread over the interval from minus one to one, the
/// label is the class that `classifier` gives, and no guess is recorded.
pub open spec fn fresh<T: Scalar, F: Fn() -> T>(
    classifier: Function<T>,
    unit: F,
    point: DataPoint<T>,
) -> bool {
    &&& drawn(unit, point.position.0)
    &&& drawn(unit, point.position.1)
    &&& point.label == classifier.label_of(point.position)
    &&& point.guess.is_none()
}

/// Points can be drawn from `unit` and labelled by `classifier`: every
/// sample can be spread, and the line has a height wherever a point may
/// fall.
pub open spec fn samplable<T: Scalar, F: Fn() -> T>(classifier: Function<T>, unit: F) -> bool {
    &&& spreadable(unit)
    &&& forall|x: T| #[trigger] drawn(unit, x) ==> classifier.defined_at(x)
}

/// A borrowed source is the source.
proof fn lemma_samplable_borrowed<T: Scalar, F: Fn() -> T>(classifier: Function<T>, unit: F)
    requires
        samplable(classifier, unit),
    ensures
        samplable(classifier, &unit),
{
    assert forall|x: T| #[trigger] drawn(&unit, x) implies classifier.defined_at(x) by {
        assert(drawn(unit, x));
    }
}

impl<T: Scalar> DataPoint<T> {
    /// A random point of the square from minus one to one, labelled by
    /// `classifier`.
    pub fn random<F: Fn() -> T>(classifier: &Function<T>, unit: F) -> (point: DataPoint<T>)
        requires
            exact::<T>(),
            samplable(*classifier, unit),
        ensures
            fresh(*classifier, unit, point),
    {
        let position = DataPoint::random_position(&unit);
        assert(drawn(unit, position.0));
        DataPoint { position, label: classifier.classify(position), guess: None }
    }

    fn random_position<F: Fn() -> T>(unit: F) -> (position: Position<T>)
        requires
            exact::<T>(),
            spreadable(unit),
        ensures
            drawn(unit, position.0),
            drawn(unit, position.1),
    {
        let first = unit();
        let x = (first * make_constant::<T>(2i8)) - make_constant::<T>(1i8);
        let second = unit();
        let y = (second * make_constant::<T>(2i8)) - make_constant::<T>(1i8);
        (x, y)
    }
}

impl<T: Scalar> DataSet<T> {
    /// `length` random points, labelled by `classifier`.
    pub fn generate<F: Fn() -> T>(length: usize, classifier: &Function<T>, unit: F) -> (set:
        DataSet<T>)
        requires
            exact::<T>(),
            samplable(*classifier, unit),
        ensures
            set.points.len() == length,
            forall|i: int| 0 <= i < length ==> fresh(*classifier, unit, #[trigger] set.points[i]),
    {
        let mut points: Vec<DataPoint<T>> = Vec::new();
        let mut i: usize = 0;
        while i < length
            invariant
                exact::<T>(),
                samplable(*classifier, unit),
                0 <= i <= length,
                points.len() == i,
                forall|k: int| 0 <= k < i ==> fresh(*classifier, unit, #[trigger] points[k]),
            decreases length - i,
        {
            proof {
                lemma_samplable_borrowed(*classifier, unit);
            }
            points.push(DataPoint::random(classifier, &unit));
            i += 1;
        }
        DataSet { points }
    }

    /// Forgets every point.
    pub fn reset(&mut self)
        ensures
            final(self).points.len() == 0,
    {
        self.points.clear();
    }

    /// `num` more random points, labelled by `classifier`, behind those
    /// already there.
    pub fn extend<F: Fn() -> T>(&mut self, num: usize, classifier: &Function<T>, unit: F)
        requires
            exact::<T>(),
            samplable(*classifier, unit),
        ensures
            final(self).points.len() == old(self).points.len() + num,
            forall|i: int|
                0 <= i < old(self).points.len() ==> final(self).points[i] == old(self).points[i],
            forall|i: int|
                old(self).points.len() <= i < final(self).points.len() ==> fresh(
                    *classifier,
                    unit,
                    #[trigger] final(self).points[i],
                ),
    {
        let mut i: usize = 0;
        while i < num
            invariant
                exact::<T>(),
                samplable(*classifier, unit),
                0 <= i <= num,
                self.points.len() == old(self).points.len() + i,
                forall|k: int|
                    0 <= k < old(self).points.len() ==> self.points[k] == old(self).points[k],
                forall|k: int|
                    old(self).points.len() <= k < self.points.len() ==> fresh(
                        *classifier,
                        unit,
                        #[trigger] self.points[k],
                    ),
            decreases num - i,
        {
            proof {
                lemma_samplable_borrowed(*classifier, unit);
            }
            self.points.push(DataPoint::random(classifier, &unit));
            i += 1;
        }
    }
}

} // verus!

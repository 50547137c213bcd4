use vstd::prelude::*;
use vstd::std_specs::convert::FromSpecImpl;

use crate::geo::collision_rect::CollisionRect;
use crate::geo::{Index, Vector};

verus! {

/// Whether the horizontal extents of two rectangles meet: the left edge of
/// one lies in the other's extent, which is closed on the left and open on
/// the right.
pub open spec fn horizontal_overlap<U, V>(a: CollisionRect<U>, b: CollisionRect<V>) -> bool {
    ||| (b.left <= a.left && a.left < b.right)
    ||| (a.left <= b.left && b.left < a.right)
}

/// Whether the vertical extents of two rectangles meet: the top edge of one
/// lies in the other's extent, which is open at the bottom and closed at the
/// top.
pub open spec fn vertical_overlap<U, V>(a: CollisionRect<U>, b: CollisionRect<V>) -> bool {
    ||| (b.bottom < a.top && a.top <= b.top)
    ||| (a.bottom < b.top && b.top <= a.top)
}

/// Whether two rectangles collide: they belong to different entities and
/// their extents meet on both axes.
pub open spec fn overlaps<U, V>(a: CollisionRect<U>, b: CollisionRect<V>) -> bool {
    &&& a.id != b.id
    &&& horizontal_overlap(a, b)
    &&& vertical_overlap(a, b)
}

/// The rectangles of `rects` that collide with `target`, in their order.
pub open spec fn colliding<T, U>(rects: Seq<CollisionRect<T>>, target: CollisionRect<U>) -> Seq<
    CollisionRect<T>,
> {
    rects.filter(|rect: CollisionRect<T>| overlaps(target, rect))
}

/// The first rectangle of `rects` that belongs to `id`.
pub open spec fn first_with_id<T>(rects: Seq<CollisionRect<T>>, id: Index) -> Option<
    CollisionRect<T>,
>
    decreases rects.len(),
{
    if rects.len() == 0 {
        None
    } else if rects.first().id == id {
        Some(rects.first())
    } else {
        first_with_id(rects.drop_first(), id)
    }
}

/// Colliding is symmetric: `a` collides with `b` exactly when `b` collides
/// with `a`.
pub proof fn overlap_is_symmetric<U, V>(a: CollisionRect<U>, b: CollisionRect<V>)
    ensures
        overlaps(a, b) == overlaps(b, a),
{
}

/// No rectangle collides with itself.
pub proof fn overlap_excludes_self<T>(a: CollisionRect<T>)
    ensures
        !overlaps(a, a),
{
}

/// Two rectangles of one entity do not collide, wherever they lie.
pub proof fn overlap_excludes_same_entity<U, V>(a: CollisionRect<U>, b: CollisionRect<V>)
    requires
        a.id == b.id,
    ensures
        !overlaps(a, b),
{
}

/// The rectangles of the solid entities of one tick. It is built once and
/// then only queried.
pub struct CollisionGrid<T> {
    pub rects: Vec<CollisionRect<T>>,
}

impl<T> View for CollisionGrid<T> {
    type V = Seq<CollisionRect<T>>;

    open spec fn view(&self) -> Seq<CollisionRect<T>> {
        self.rects@
    }
}

impl<T> CollisionGrid<T> {
    pub fn new(rects: Vec<CollisionRect<T>>) -> (grid: Self)
        ensures
            grid@ == rects@,
    {
        Self { rects }
    }

    pub fn rect_by_id(&self, id: Index) -> (found: Option<&CollisionRect<T>>)
        ensures
            match found {
                Some(rect) => first_with_id(self@, id) == Some(*rect) && rect.id == id,
                None => first_with_id(self@, id) is None,
            },
            found is None <==> forall|i: int| 0 <= i < self@.len() ==> (#[trigger] self@[i]).id != id,
    {
        let mut i: usize = 0;
        assert(self@.skip(0) == self@);
        while i < self.rects.len()
            invariant
                i <= self.rects.len(),
                first_with_id(self@, id) == first_with_id(self@.skip(i as int), id),
                forall|j: int| 0 <= j < i ==> (#[trigger] self@[j]).id != id,
            decreases self.rects.len() - i,
        {
            if self.rects[i].id == id {
                return Some(&self.rects[i]);
            }
            assert(self@.skip(i as int).drop_first() == self@.skip(i as int + 1));
            i += 1;
        }
        None
    }

    pub fn collides_any(&self, target_rect: &CollisionRect<T>) -> (hit: bool)
        ensures
            hit == exists|i: int| 0 <= i < self@.len() && overlaps(*target_rect, #[trigger] self@[i]),
    {
        let mut i: usize = 0;
        while i < self.rects.len()
            invariant
                i <= self.rects.len(),
                forall|j: int| 0 <= j < i ==> !overlaps(*target_rect, #[trigger] self@[j]),
            decreases self.rects.len() - i,
        {
            if Self::do_rects_collide(target_rect, &self.rects[i]) {
                assert(overlaps(*target_rect, self@[i as int]));
                return true;
            }
            i += 1;
        }
        false
    }

    pub fn colliding_with<'a>(&'a self, target_rect: &CollisionRect<T>) -> (hits: Vec<
        &'a CollisionRect<T>,
    >)
        ensures
            hits@.unref() == colliding(self@, *target_rect),
    {
        let mut hits: Vec<&'a CollisionRect<T>> = Vec::new();
        let mut i: usize = 0;
        while i < self.rects.len()
            invariant
                i <= self.rects.len(),
                hits@.unref() == colliding(
                    self@.take(i as int),
                    *target_rect,
                ),
            decreases self.rects.len() - i,
        {
            proof {
                lemma_colliding_step(self@, *target_rect, i as int);
            }
            if Self::do_rects_collide(target_rect, &self.rects[i]) {
                let ghost before = hits@;
                hits.push(&self.rects[i]);
                assert(hits@.unref() == before.unref().push(self@[i as int]));
            }
            i += 1;
        }
        assert(self@.take(self@.len() as int) == self@);
        hits
    }

    pub fn colliding_with_id<'a>(&'a self, id: Index) -> (hits: Vec<&'a CollisionRect<T>>)
        ensures
            hits@.unref() == match first_with_id(self@, id) {
                Some(target) => colliding(self@, target),
                None => Seq::empty(),
            },
    {
        match self.rect_by_id(id) {
            Some(target_rect) => self.colliding_with(target_rect),
            None => {
                let hits: Vec<&'a CollisionRect<T>> = Vec::new();
                assert(hits@.unref() == Seq::<CollisionRect<T>>::empty());
                hits
            },
        }
    }

    pub fn do_rects_collide<U, V>(rect_one: &CollisionRect<U>, rect_two: &CollisionRect<V>) -> (hit:
        bool)
        ensures
            hit == overlaps(*rect_one, *rect_two),
    {
        rect_one.id != rect_two.id && ((rect_one.left >= rect_two.left && rect_one.left
            < rect_two.right) || (rect_one.left <= rect_two.left && rect_one.right > rect_two.left))
            && ((rect_one.top <= rect_two.top && rect_one.top > rect_two.bottom) || (rect_one.top
            >= rect_two.top && rect_one.bottom < rect_two.top))
    }
}

/// The rectangles that `data` describes, in their order: each entry holds
/// an entity, its position, and its size if it has one.
pub open spec fn rects_of<T>(data: Seq<(Index, Vector, Option<Vector>)>) -> Seq<CollisionRect<T>> {
    data.map_values(
        |entry: (Index, Vector, Option<Vector>)|
            CollisionRect::<T>::spec_new(entry.0, entry.1, entry.2),
    )
}

/// The rectangles that `data` describes, in their order: each entry holds
/// an entity, its position, its size if it has one, and what is attached.
pub open spec fn rects_with_custom_of<T>(
    data: Seq<(Index, Vector, Option<Vector>, Option<T>)>,
) -> Seq<CollisionRect<T>> {
    data.map_values(
        |entry: (Index, Vector, Option<Vector>, Option<T>)|
            CollisionRect::<T>::spec_with_custom(entry.0, entry.1, entry.2, entry.3),
    )
}

impl<T> From<Vec<(Index, Vector, Option<Vector>)>> for CollisionGrid<T> {
    fn from(data: Vec<(Index, Vector, Option<Vector>)>) -> (grid: Self)
        ensures
            grid@ == rects_of::<T>(data@),
    {
        let mut rects: Vec<CollisionRect<T>> = Vec::new();
        let mut i: usize = 0;
        while i < data.len()
            invariant
                i <= data.len(),
                rects@ == rects_of::<T>(data@.take(i as int)),
            decreases data.len() - i,
        {
            rects.push(CollisionRect::from(data[i]));
            assert(rects@ == rects_of::<T>(data@.take(i as int + 1)));
            i += 1;
        }
        assert(data@.take(data@.len() as int) == data@);
        Self::new(rects)
    }
}

/// A grid is told from another by its rectangles alone, so the conversion
/// is stated over the rectangles, in the contract of `from`.
impl<T> FromSpecImpl<Vec<(Index, Vector, Option<Vector>)>> for CollisionGrid<T> {
    open spec fn obeys_from_spec() -> bool {
        false
    }

    open spec fn from_spec(data: Vec<(Index, Vector, Option<Vector>)>) -> Self {
        choose|grid: Self| grid@ == rects_of::<T>(data@)
    }
}

impl<T: Clone + Copy> From<Vec<(Index, Vector, Option<Vector>, Option<T>)>> for CollisionGrid<T> {
    fn from(data: Vec<(Index, Vector, Option<Vector>, Option<T>)>) -> (grid: Self)
        ensures
            grid@ == rects_with_custom_of::<T>(data@),
    {
        let mut rects: Vec<CollisionRect<T>> = Vec::new();
        let mut i: usize = 0;
        while i < data.len()
            invariant
                i <= data.len(),
                rects@ == rects_with_custom_of::<T>(data@.take(i as int)),
            decreases data.len() - i,
        {
            rects.push(CollisionRect::from(data[i]));
            assert(rects@ == rects_with_custom_of::<T>(data@.take(i as int + 1)));
            i += 1;
        }
        assert(data@.take(data@.len() as int) == data@);
        Self::new(rects)
    }
}

/// As above: the conversion is stated in the contract of `from`.
impl<T: Clone + Copy> FromSpecImpl<Vec<(Index, Vector, Option<Vector>, Option<T>)>> for CollisionGrid<T> {
    open spec fn obeys_from_spec() -> bool {
        false
    }

    open spec fn from_spec(data: Vec<(Index, Vector, Option<Vector>, Option<T>)>) -> Self {
        choose|grid: Self| grid@ == rects_with_custom_of::<T>(data@)
    }
}

/// Looking at one more rectangle adds it to the colliding ones exactly when
/// it collides with the target.
proof fn lemma_colliding_step<T, U>(
    rects: Seq<CollisionRect<T>>,
    target: CollisionRect<U>,
    i: int,
)
    requires
        0 <= i < rects.len(),
    ensures
        colliding(rects.take(i + 1), target) == if overlaps(target, rects[i]) {
            colliding(rects.take(i), target).push(rects[i])
        } else {
            colliding(rects.take(i), target)
        },
{
    reveal(Seq::filter);
    assert(rects.take(i + 1).drop_last() == rects.take(i));
}

} // verus!

//! A named world of boids, and the choice of the two worlds that a frame
//! works with: the main world, which is read, and its copy, which is updated
//! and then copied back.
//!
//! The boid type is a parameter: what a boid holds (its position, velocity and
//! heading) is not read here.
use vstd::prelude::*;

verus! {

/// A named collection of boids.
pub struct BoidWorld<B> {
    pub name: String,
    pub boids: Vec<B>,
}

/// How many boids `init` adds when asked for `number_of_boids`.
pub open spec fn boids_added(number_of_boids: int) -> int {
    if number_of_boids <= 0 {
        0
    } else {
        number_of_boids
    }
}

impl<B: Copy> BoidWorld<B> {
    /// An empty world with the given name.
    pub fn new(name: &str) -> (world: Self)
        ensures
            world.name@ == name@,
            world.boids@ == Seq::<B>::empty(),
    {
        BoidWorld { name: name.to_string(), boids: Vec::new() }
    }

    /// Makes this world's boids a copy of `other_world`'s, boid by boid.
    /// Both worlds hold the same number of boids.
    pub fn set_world(&mut self, other_world: &BoidWorld<B>)
        requires
            old(self).boids.len() == other_world.boids.len(),
        ensures
            final(self).boids@ == other_world.boids@,
            final(self).name == old(self).name,
    {
        let n = self.boids.len();
        for i in 0..n
            invariant
                n == self.boids.len(),
                n == other_world.boids.len(),
                self.name == old(self).name,
                forall|j: int| 0 <= j < i ==> self.boids@[j] == other_world.boids@[j],
        {
            let boid: B = other_world.boids[i];
            self.boids.set(i, boid);
        }
        assert(self.boids@ =~= other_world.boids@);
    }

    /// Adds `number_of_boids` new boids (none when it is not positive) after
    /// the boids already there; the `m`-th new boid is made by its own call
    /// `make_boid(m)`.
    pub fn init<F: Fn(usize) -> B>(&mut self, number_of_boids: i32, make_boid: F)
        requires
            forall|m: usize| #[trigger] make_boid.requires((m,)),
            old(self).boids.len() + boids_added(number_of_boids as int) <= usize::MAX,
        ensures
            final(self).name == old(self).name,
            final(self).boids.len() == old(self).boids.len() + boids_added(number_of_boids as int),
            number_of_boids > 0 ==> final(self).boids.len() == old(self).boids.len() + number_of_boids,
            number_of_boids <= 0 ==> final(self).boids@ == old(self).boids@,
            forall|j: int|
                0 <= j < old(self).boids.len() ==> final(self).boids@[j] == old(self).boids@[j],
            forall|j: int|
                old(self).boids.len() <= j < final(self).boids.len() ==> make_boid.ensures(
                    ((j - old(self).boids.len()) as usize,),
                    #[trigger] final(self).boids@[j],
                ),
    {
        let ghost start = self.boids@;
        let mut made: i32 = 0;
        while made < number_of_boids
            invariant
                0 <= made,
                number_of_boids > 0 ==> made <= number_of_boids,
                number_of_boids <= 0 ==> made == 0,
                forall|m: usize| #[trigger] make_boid.requires((m,)),
                start.len() + boids_added(number_of_boids as int) <= usize::MAX,
                self.name == old(self).name,
                start == old(self).boids@,
                self.boids.len() == start.len() + made,
                forall|j: int| 0 <= j < start.len() ==> self.boids@[j] == start[j],
                forall|j: int|
                    start.len() <= j < self.boids.len() ==> make_boid.ensures(
                        ((j - start.len()) as usize,),
                        #[trigger] self.boids@[j],
                    ),
            decreases number_of_boids - made,
        {
            let boid = make_boid(made as usize);
            self.boids.push(boid);
            made = made + 1;
        }
    }
}

/// Runs one frame over a double-buffered pair of worlds. Every boid `k` of the
/// copy is replaced by `step(main boids, k, copy boid k)`, where the main boids
/// are those of the main world before the frame; then the main world takes the
/// copy's boids. So a boid's next state depends only on the main world as it
/// was, its own entry in the copy, and what `step` reads besides (walls, time).
pub fn advance_frame<B: Copy, F: Fn(&Vec<B>, usize, B) -> B>(
    main_world: &mut BoidWorld<B>,
    copy_world: &mut BoidWorld<B>,
    step: F,
)
    requires
        old(main_world).boids.len() == old(copy_world).boids.len(),
        forall|k: usize, b: B| #[trigger] step.requires((&old(main_world).boids, k, b)),
    ensures
        final(copy_world).boids.len() == old(copy_world).boids.len(),
        forall|k: int|
            0 <= k < old(copy_world).boids.len() ==> step.ensures(
                (&old(main_world).boids, k as usize, old(copy_world).boids@[k]),
                #[trigger] final(copy_world).boids@[k],
            ),
        final(main_world).boids@ == final(copy_world).boids@,
        final(main_world).name == old(main_world).name,
        final(copy_world).name == old(copy_world).name,
{
    let n = copy_world.boids.len();
    let ghost before = copy_world.boids@;
    for k in 0..n
        invariant
            n == copy_world.boids.len(),
            n == main_world.boids.len(),
            before == old(copy_world).boids@,
            main_world.boids == old(main_world).boids,
            main_world.name == old(main_world).name,
            copy_world.name == old(copy_world).name,
            forall|k: usize, b: B| #[trigger] step.requires((&main_world.boids, k, b)),
            forall|j: int| k <= j < n ==> copy_world.boids@[j] == before[j],
            forall|j: int|
                0 <= j < k ==> step.ensures(
                    (&main_world.boids, j as usize, before[j]),
                    #[trigger] copy_world.boids@[j],
                ),
    {
        let boid: B = copy_world.boids[k];
        let next: B = step(&main_world.boids, k, boid);
        copy_world.boids.set(k, next);
    }
    main_world.set_world(copy_world);
}

/// `init` adds exactly the number of boids it is asked for when that number is
/// positive, and none otherwise.
pub proof fn law_boids_added_is_count(number_of_boids: int)
    ensures
        number_of_boids > 0 ==> boids_added(number_of_boids) == number_of_boids,
        number_of_boids <= 0 ==> boids_added(number_of_boids) == 0,
        boids_added(number_of_boids) >= 0,
{
}

/// The name of the world that a frame reads from.
pub open spec fn main_world_name() -> Seq<char> {
    "Main"@
}

/// The two worlds a frame works with, as indices into the list of worlds.
#[derive(Clone, Copy, Debug, PartialEq, Eq)]
pub struct WorldPick {
    /// The world named "Main".
    pub main: Option<usize>,
    /// A world with any other name.
    pub copy: Option<usize>,
}

/// The pick among the first `k` worlds: a world named "Main" becomes the main
/// world, any other the copy, a later one replacing an earlier one.
pub open spec fn pick_upto(names: Seq<Seq<char>>, k: int) -> WorldPick
    decreases k,
{
    if k <= 0 {
        WorldPick { main: None, copy: None }
    } else {
        let earlier = pick_upto(names, k - 1);
        if names[k - 1] == main_world_name() {
            WorldPick { main: Some((k - 1) as usize), ..earlier }
        } else {
            WorldPick { copy: Some((k - 1) as usize), ..earlier }
        }
    }
}

/// The names of the worlds, as the pick sees them.
pub open spec fn name_views(names: Seq<String>) -> Seq<Seq<char>> {
    names.map_values(|s: String| s@)
}

/// Picks the main world and its copy among worlds with the given names.
pub fn pick_worlds(names: &Vec<String>) -> (pick: WorldPick)
    ensures
        pick == pick_upto(name_views(names@), names.len() as int),
{
    proof {
        reveal_strlit("Main");
    }
    let main_name: String = "Main".to_string();
    let mut pick = WorldPick { main: None, copy: None };
    let n = names.len();
    for i in 0..n
        invariant
            n == names.len(),
            main_name@ == main_world_name(),
            pick == pick_upto(name_views(names@), i as int),
    {
        if names[i] == main_name {
            pick = WorldPick { main: Some(i), ..pick };
        } else {
            pick = WorldPick { copy: Some(i), ..pick };
        }
    }
    pick
}

/// The main world is the last world named "Main", and there is none when no
/// world has that name; the copy is the last world with another name, and
/// there is none when every world is named "Main".
pub proof fn law_pick_is_last_match(names: Seq<Seq<char>>, k: int)
    requires
        0 <= k <= names.len(),
        k <= usize::MAX,
    ensures
        ({
            let p = pick_upto(names, k);
            &&& p.main matches Some(m) ==> {
                &&& m < k
                &&& names[m as int] == main_world_name()
                &&& forall|j: int| m < j < k ==> names[j] != main_world_name()
            }
            &&& p.main is None ==> forall|j: int| 0 <= j < k ==> names[j] != main_world_name()
            &&& p.copy matches Some(c) ==> {
                &&& c < k
                &&& names[c as int] != main_world_name()
                &&& forall|j: int| c < j < k ==> names[j] == main_world_name()
            }
            &&& p.copy is None ==> forall|j: int| 0 <= j < k ==> names[j] == main_world_name()
        }),
    decreases k,
{
    if k > 0 {
        law_pick_is_last_match(names, k - 1);
    }
}

} // verus!

//! Movement and collision: free movement of every sprite, and the response
//! of sprites that overlap each other or reach outside the window.

use vstd::prelude::*;
use crate::sprite::{Pos, Size, Sprite, Velocity};
use crate::units::{clamp_axis, clamp_into, leaves, leaves_axis, negate, saturate};
use crate::world::World;

verus! {

/// What a sprite collided with.
#[derive(Clone, Copy, Debug, PartialEq, Eq, Structural)]
pub enum CollisionType {
    WithSprite,
    WithBorder,
}

/// Whether the boxes of two sprites overlap. Boxes that only touch do not.
pub open spec fn overlap(a: Sprite, b: Sprite) -> bool {
    &&& a.pos.x < b.pos.x + b.size.width
    &&& a.pos.x + a.size.width > b.pos.x
    &&& a.pos.y < b.pos.y + b.size.height
    &&& a.pos.y + a.size.height > b.pos.y
}

impl Sprite {
    /// The sprite with both components of its velocity turned round.
    pub open spec fn bounced(self) -> Sprite {
        Sprite {
            velocity: Velocity {
                dx: saturate(-self.velocity.dx) as i64,
                dy: saturate(-self.velocity.dy) as i64,
            },
            ..self
        }
    }

    /// The sprite after `times` bounces.
    pub open spec fn bounced_times(self, times: nat) -> Sprite
        decreases times,
    {
        if times == 0 {
            self
        } else {
            self.bounced_times((times - 1) as nat).bounced()
        }
    }

    /// Whether the box of the sprite reaches outside the window.
    pub open spec fn leaves_window(self, window: Size) -> bool {
        ||| leaves_axis(self.pos.x as int, window.width as int, self.size.width as int)
        ||| leaves_axis(self.pos.y as int, window.height as int, self.size.height as int)
    }

    /// The sprite after the border had its say: a sprite that reaches outside
    /// the window turns round along each axis on which it does, and is put
    /// back into the window.
    pub open spec fn kept_inside(self, window: Size) -> Sprite {
        if self.leaves_window(window) {
            Sprite {
                pos: Pos {
                    x: saturate(
                        clamp_axis(
                            self.pos.x as int,
                            window.width as int,
                            self.size.width as int,
                        ),
                    ) as i64,
                    y: saturate(
                        clamp_axis(
                            self.pos.y as int,
                            window.height as int,
                            self.size.height as int,
                        ),
                    ) as i64,
                },
                velocity: Velocity {
                    dx: if leaves_axis(
                        self.pos.x as int,
                        window.width as int,
                        self.size.width as int,
                    ) {
                        saturate(-self.velocity.dx) as i64
                    } else {
                        self.velocity.dx
                    },
                    dy: if leaves_axis(
                        self.pos.y as int,
                        window.height as int,
                        self.size.height as int,
                    ) {
                        saturate(-self.velocity.dy) as i64
                    } else {
                        self.velocity.dy
                    },
                },
                ..self
            }
        } else {
            self
        }
    }
}

/// The names of the sprites that overlap the sprite under `name`.
pub open spec fn partners(sprites: Map<Seq<char>, Sprite>, name: Seq<char>) -> Set<Seq<char>> {
    Set::new(
        |other: Seq<char>|
            sprites.dom().contains(other) && other != name && overlap(
                sprites[name],
                sprites[other],
            ),
    )
}

/// The sprite under `name` after one round of collisions: it bounces once
/// for each sprite that it overlaps, and then the border has its say.
pub open spec fn collided(sprites: Map<Seq<char>, Sprite>, window: Size, name: Seq<char>) -> Sprite {
    sprites[name].bounced_times(partners(sprites, name).len()).kept_inside(window)
}

/// What a round of collisions reports: the border where any sprite reached
/// outside the window, else another sprite where any two overlapped.
pub open spec fn collision_outcome(sprites: Map<Seq<char>, Sprite>, window: Size) -> Option<
    CollisionType,
> {
    if exists|name: Seq<char>|
        sprites.dom().contains(name) && (#[trigger] sprites[name]).leaves_window(window) {
        Some(CollisionType::WithBorder)
    } else if exists|a: Seq<char>, b: Seq<char>|
        sprites.dom().contains(a) && sprites.dom().contains(b) && a != b && overlap(
            #[trigger] sprites[a],
            #[trigger] sprites[b],
        ) {
        Some(CollisionType::WithSprite)
    } else {
        None
    }
}

/// Overlap does not depend on the order of the two sprites.
pub proof fn lemma_intersects_symmetric(a: Sprite, b: Sprite)
    ensures
        overlap(a, b) == overlap(b, a),
{
}

/// Two sprites that overlap are partners of each other, so that a round of
/// collisions makes both of them bounce.
pub proof fn lemma_partners_mutual(sprites: Map<Seq<char>, Sprite>, a: Seq<char>, b: Seq<char>)
    requires
        sprites.dom().contains(a),
        sprites.dom().contains(b),
    ensures
        partners(sprites, a).contains(b) == partners(sprites, b).contains(a),
        partners(sprites, a).contains(b) == (a != b && overlap(sprites[a], sprites[b])),
        !partners(sprites, a).contains(a),
{
}

/// Bouncing changes the velocity of a sprite and nothing else.
pub proof fn lemma_bounced_times_keeps_box(s: Sprite, times: nat)
    ensures
        s.bounced_times(times).pos == s.pos,
        s.bounced_times(times).size == s.size,
        s.bounced_times(times).color == s.color,
    decreases times,
{
    if times > 0 {
        lemma_bounced_times_keeps_box(s, (times - 1) as nat);
    }
}

/// An odd number of bounces turns the velocity of a sprite round, and an
/// even number leaves it as it was, as long as no component is the most
/// negative number, which has no opposite.
pub proof fn lemma_bounced_times_parity(s: Sprite, times: nat)
    requires
        s.velocity.dx > i64::MIN,
        s.velocity.dy > i64::MIN,
    ensures
        times % 2 == 0 ==> s.bounced_times(times).velocity == s.velocity,
        times % 2 == 1 ==> s.bounced_times(times).velocity.dx == -s.velocity.dx && s.bounced_times(
            times,
        ).velocity.dy == -s.velocity.dy,
    decreases times,
{
    if times > 0 {
        lemma_bounced_times_parity(s, (times - 1) as nat);
    }
}

/// After the border had its say a sprite that fits in the window lies in
/// it, and along each axis on which it had left the window its velocity is
/// turned round.
pub proof fn lemma_kept_inside_bounds(s: Sprite, window: Size)
    requires
        s.size.width <= window.width,
        s.size.height <= window.height,
        s.leaves_window(window),
    ensures
        0 <= s.kept_inside(window).pos.x <= window.width - s.size.width,
        0 <= s.kept_inside(window).pos.y <= window.height - s.size.height,
        leaves_axis(s.pos.x as int, window.width as int, s.size.width as int) && s.velocity.dx
            > i64::MIN ==> s.kept_inside(window).velocity.dx == -s.velocity.dx,
        leaves_axis(s.pos.y as int, window.height as int, s.size.height as int) && s.velocity.dy
            > i64::MIN ==> s.kept_inside(window).velocity.dy == -s.velocity.dy,
        !leaves_axis(s.pos.x as int, window.width as int, s.size.width as int)
            ==> s.kept_inside(window).pos.x == s.pos.x && s.kept_inside(window).velocity.dx
            == s.velocity.dx,
        !leaves_axis(s.pos.y as int, window.height as int, s.size.height as int)
            ==> s.kept_inside(window).pos.y == s.pos.y && s.kept_inside(window).velocity.dy
            == s.velocity.dy,
{
}

/// After a round of collisions a sprite that had reached outside the window
/// and fits in it lies in it, whatever it overlapped; one that had not
/// reached outside stays where it was.
pub proof fn lemma_collided_inside(sprites: Map<Seq<char>, Sprite>, window: Size, name: Seq<char>)
    requires
        sprites.dom().contains(name),
        sprites[name].size.width <= window.width,
        sprites[name].size.height <= window.height,
    ensures
        sprites[name].leaves_window(window) ==> 0 <= collided(sprites, window, name).pos.x
            <= window.width - sprites[name].size.width,
        sprites[name].leaves_window(window) ==> 0 <= collided(sprites, window, name).pos.y
            <= window.height - sprites[name].size.height,
        !sprites[name].leaves_window(window) ==> collided(sprites, window, name).pos
            == sprites[name].pos,
        collided(sprites, window, name).size == sprites[name].size,
        collided(sprites, window, name).color == sprites[name].color,
{
    lemma_bounced_times_keeps_box(sprites[name], partners(sprites, name).len());
}

/// Whether the boxes of two sprites overlap.
pub fn intersects(a: &Sprite, b: &Sprite) -> (hit: bool)
    ensures
        hit == overlap(*a, *b),
{
    (a.pos.x as i128) < b.pos.x as i128 + b.size.width as i128 && a.pos.x as i128
        + a.size.width as i128 > b.pos.x as i128 && (a.pos.y as i128) < b.pos.y as i128
        + b.size.height as i128 && a.pos.y as i128 + a.size.height as i128 > b.pos.y as i128
}

/// Turns both components of the velocity of a sprite round.
pub fn resolve_collision(sprite: &mut Sprite)
    ensures
        *final(sprite) == old(sprite).bounced(),
{
    sprite.velocity.dx = negate(sprite.velocity.dx);
    sprite.velocity.dy = negate(sprite.velocity.dy);
}

/// Lets the border have its say on one sprite, and tells whether the sprite
/// had reached outside the window.
pub fn keep_inside(sprite: &mut Sprite, window: &Size) -> (left: bool)
    ensures
        left == old(sprite).leaves_window(*window),
        *final(sprite) == old(sprite).kept_inside(*window),
{
    let mut left = false;
    if leaves(sprite.pos.x, window.width, sprite.size.width) {
        sprite.velocity.dx = negate(sprite.velocity.dx);
        left = true;
    }
    if leaves(sprite.pos.y, window.height, sprite.size.height) {
        sprite.velocity.dy = negate(sprite.velocity.dy);
        left = true;
    }
    if left {
        sprite.pos.x = clamp_into(sprite.pos.x, window.width, sprite.size.width);
        sprite.pos.y = clamp_into(sprite.pos.y, window.height, sprite.size.height);
    }
    left
}

/// Lets every sprite of the world move freely for `dt` milliseconds.
pub fn move_objects(world: &mut World, dt: i64)
    requires
        old(world).wf(),
    ensures
        final(world).wf(),
        final(world).window == old(world).window,
        final(world)@.dom() == old(world)@.dom(),
        forall|name: Seq<char>|
            old(world)@.dom().contains(name) ==> #[trigger] final(world)@[name] == old(
                world,
            )@[name].moved(dt as int),
{
    let ghost before = *world;
    let n: usize = world.len();
    let mut i: usize = 0;
    while i < n
        invariant
            i <= n,
            n == before.keys().len(),
            before.wf(),
            world.wf(),
            world.window == before.window,
            world.keys() == before.keys(),
            forall|t: int| 0 <= t < i ==> world.items()[t] == before.items()[t].moved(dt as int),
            forall|t: int| i <= t < n ==> world.items()[t] == before.items()[t],
        decreases n - i,
    {
        let mut sprite = world.sprite_at(i);
        sprite.step(dt);
        world.put(i, sprite);
        i = i + 1;
    }
    proof {
        assert(world@.dom() =~= before@.dom());
        assert forall|name: Seq<char>| before@.dom().contains(name) implies #[trigger] world@[name]
            == before@[name].moved(dt as int) by {
            before.lemma_view_of(name);
            world.lemma_view_of(name);
        }
    }
}

/// The partners of the sprite at place `i` among the sprites before place
/// `j`.
spec fn partners_before(world: World, i: int, j: int) -> Set<Seq<char>> {
    Set::new(
        |other: Seq<char>|
            world.keys().contains(other) && world.keys().index_of(other) < j && other
                != world.keys()[i] && overlap(
                world.items()[i],
                world.items()[world.keys().index_of(other)],
            ),
    )
}

proof fn lemma_partners_step(world: World, i: int, j: int)
    requires
        world.wf(),
        0 <= i < world.keys().len(),
        0 <= j < world.keys().len(),
    ensures
        !partners_before(world, i, j).contains(world.keys()[j]),
        partners_before(world, i, j + 1) == if j != i && overlap(
            world.items()[i],
            world.items()[j],
        ) {
            partners_before(world, i, j).insert(world.keys()[j])
        } else {
            partners_before(world, i, j)
        },
{
    world.lemma_view_at(j);
    world.lemma_view_at(i);
    let next = partners_before(world, i, j + 1);
    let grown = if j != i && overlap(world.items()[i], world.items()[j]) {
        partners_before(world, i, j).insert(world.keys()[j])
    } else {
        partners_before(world, i, j)
    };
    assert forall|k: Seq<char>| next.contains(k) <==> grown.contains(k) by {
        if world.keys().contains(k) {
            let t = world.keys().index_of(k);
            assert(world.keys()[t] == k);
            if t == j {
                assert(k == world.keys()[j]);
            }
        }
    }
    assert(next =~= grown);
}

proof fn lemma_partners_whole(world: World, i: int)
    requires
        world.wf(),
        0 <= i < world.keys().len(),
    ensures
        partners_before(world, i, 0) == Set::<Seq<char>>::empty(),
        partners_before(world, i, world.keys().len() as int) == partners(
            world@,
            world.keys()[i],
        ),
{
    world.lemma_view_at(i);
    assert(partners_before(world, i, 0) =~= Set::<Seq<char>>::empty());
    let whole = partners_before(world, i, world.keys().len() as int);
    let named = partners(world@, world.keys()[i]);
    assert forall|k: Seq<char>| whole.contains(k) <==> named.contains(k) by {
        if world.keys().contains(k) {
            world.lemma_view_of(k);
        }
    }
    assert(whole =~= named);
}

/// The number of sprites that overlap the sprite at place `i`.
pub fn count_partners(world: &World, i: usize) -> (count: usize)
    requires
        world.wf(),
        i < world.keys().len(),
    ensures
        partners(world@, world.keys()[i as int]).finite(),
        count == partners(world@, world.keys()[i as int]).len(),
{
    let n: usize = world.len();
    let me = world.sprite_at(i);
    let mut count: usize = 0;
    let mut j: usize = 0;
    proof {
        lemma_partners_whole(*world, i as int);
    }
    while j < n
        invariant
            j <= n,
            n == world.keys().len(),
            i < n,
            world.wf(),
            me == world.items()[i as int],
            count <= j,
            partners_before(*world, i as int, j as int).finite(),
            count == partners_before(*world, i as int, j as int).len(),
        decreases n - j,
    {
        let other = world.sprite_at(j);
        proof {
            lemma_partners_step(*world, i as int, j as int);
        }
        if j != i && intersects(&me, &other) {
            count = count + 1;
        }
        j = j + 1;
    }
    proof {
        lemma_partners_whole(*world, i as int);
    }
    count
}

/// One round of collisions. Every sprite bounces once for each sprite that
/// it overlaps; then every sprite that reaches outside the window turns
/// round and is put back into it. Reports the border if any sprite had
/// reached outside the window, else another sprite if any two overlapped.
pub fn collision(world: &mut World, _dt: i64) -> (outcome: Option<CollisionType>)
    requires
        old(world).wf(),
    ensures
        final(world).wf(),
        final(world).window == old(world).window,
        final(world)@.dom() == old(world)@.dom(),
        forall|name: Seq<char>|
            old(world)@.dom().contains(name) ==> #[trigger] final(world)@[name] == collided(
                old(world)@,
                old(world).window,
                name,
            ),
        outcome == collision_outcome(old(world)@, old(world).window),
{
    let ghost before = *world;
    let n: usize = world.len();
    let mut hits: Vec<usize> = Vec::new();
    let mut any_pair = false;
    let mut i: usize = 0;
    while i < n
        invariant
            i <= n,
            n == before.keys().len(),
            *world == before,
            before.wf(),
            hits@.len() == i,
            forall|t: int|
                #![trigger hits@[t]]
                #![trigger before.keys()[t]]
                0 <= t < i ==> partners(before@, before.keys()[t]).finite() && hits@[t]
                    == partners(before@, before.keys()[t]).len(),
            any_pair == exists|t: int| 0 <= t < i && #[trigger] hits@[t] > 0,
        decreases n - i,
    {
        let ghost counted = hits@;
        let count: usize = count_partners(world, i);
        hits.push(count);
        proof {
            assert(hits@ == counted.push(count));
            assert forall|t: int| 0 <= t < i implies #[trigger] hits@[t] == counted[t] by {}
            assert(hits@[i as int] == count);
            if any_pair {
                let t = choose|t: int| 0 <= t < i && #[trigger] counted[t] > 0;
                assert(hits@[t] > 0);
            }
        }
        if count > 0 {
            any_pair = true;
        }
        i = i + 1;
    }
    let window = world.window;
    let mut any_border = false;
    let mut i: usize = 0;
    while i < n
        invariant
            i <= n,
            n == before.keys().len(),
            before.wf(),
            world.wf(),
            world.window == before.window,
            window == before.window,
            world.keys() == before.keys(),
            hits@.len() == n,
            forall|t: int|
                #![trigger hits@[t]]
                #![trigger before.keys()[t]]
                0 <= t < n ==> partners(before@, before.keys()[t]).finite() && hits@[t]
                    == partners(before@, before.keys()[t]).len(),
            any_pair == exists|t: int| 0 <= t < n && #[trigger] hits@[t] > 0,
            forall|t: int|
                0 <= t < i ==> world.items()[t] == before.items()[t].bounced_times(
                    hits@[t] as nat,
                ).kept_inside(window),
            forall|t: int| i <= t < n ==> world.items()[t] == before.items()[t],
            any_border == exists|t: int|
                0 <= t < i && (#[trigger] before.items()[t]).leaves_window(window),
        decreases n - i,
    {
        let mut sprite = world.sprite_at(i);
        let bounces: usize = hits[i];
        let mut done: usize = 0;
        while done < bounces
            invariant
                done <= bounces,
                sprite == before.items()[i as int].bounced_times(done as nat),
                0 <= i < before.items().len(),
            decreases bounces - done,
        {
            resolve_collision(&mut sprite);
            done = done + 1;
        }
        proof {
            lemma_bounced_times_keeps_box(before.items()[i as int], bounces as nat);
        }
        let left = keep_inside(&mut sprite, &window);
        if left {
            any_border = true;
        }
        world.put(i, sprite);
        i = i + 1;
    }
    proof {
        assert(world@.dom() =~= before@.dom());
        assert forall|name: Seq<char>| before@.dom().contains(name) implies #[trigger] world@[name]
            == collided(before@, before.window, name) by {
            before.lemma_view_of(name);
            world.lemma_view_of(name);
        }
        lemma_outcome(before, hits@, any_border, any_pair);
    }
    if any_border {
        Some(CollisionType::WithBorder)
    } else if any_pair {
        Some(CollisionType::WithSprite)
    } else {
        None
    }
}

proof fn lemma_outcome(world: World, hits: Seq<usize>, any_border: bool, any_pair: bool)
    requires
        world.wf(),
        hits.len() == world.keys().len(),
        forall|t: int|
            #![trigger hits[t]]
            #![trigger world.keys()[t]]
            0 <= t < hits.len() ==> partners(world@, world.keys()[t]).finite() && hits[t]
                == partners(world@, world.keys()[t]).len(),
        any_border == exists|t: int|
            0 <= t < hits.len() && (#[trigger] world.items()[t]).leaves_window(world.window),
        any_pair == exists|t: int| 0 <= t < hits.len() && #[trigger] hits[t] > 0,
    ensures
        collision_outcome(world@, world.window) == if any_border {
            Some(CollisionType::WithBorder)
        } else if any_pair {
            Some(CollisionType::WithSprite)
        } else {
            None
        },
{
    let sprites = world@;
    let window = world.window;
    let border = exists|name: Seq<char>|
        sprites.dom().contains(name) && (#[trigger] sprites[name]).leaves_window(window);
    let pair = exists|a: Seq<char>, b: Seq<char>|
        sprites.dom().contains(a) && sprites.dom().contains(b) && a != b && overlap(
            #[trigger] sprites[a],
            #[trigger] sprites[b],
        );
    if any_border {
        let t = choose|t: int|
            0 <= t < hits.len() && (#[trigger] world.items()[t]).leaves_window(world.window);
        world.lemma_view_at(t);
        assert(sprites[world.keys()[t]].leaves_window(window));
    }
    if border {
        let name = choose|name: Seq<char>|
            sprites.dom().contains(name) && (#[trigger] sprites[name]).leaves_window(window);
        world.lemma_view_of(name);
        assert(world.items()[world.keys().index_of(name)].leaves_window(world.window));
    }
    assert(border == any_border);
    if any_pair {
        let t = choose|t: int| 0 <= t < hits.len() && #[trigger] hits[t] > 0;
        world.lemma_view_at(t);
        let set = partners(sprites, world.keys()[t]);
        assert(set.len() > 0);
        let b = set.choose();
        assert(set.contains(b)) by {
            if !set.contains(b) {
                assert(set =~= Set::<Seq<char>>::empty());
            }
        }
        assert(overlap(sprites[world.keys()[t]], sprites[b]));
    }
    if pair {
        let (a, b) = choose|a: Seq<char>, b: Seq<char>|
            sprites.dom().contains(a) && sprites.dom().contains(b) && a != b && overlap(
                #[trigger] sprites[a],
                #[trigger] sprites[b],
            );
        world.lemma_view_of(a);
        let t = world.keys().index_of(a);
        let set = partners(sprites, world.keys()[t]);
        assert(set.contains(b));
        assert(hits[t] == set.len() && set.finite());
        assert(set.len() > 0) by {
            if set.len() == 0 {
                set.lemma_len0_is_empty();
            }
        }
        assert(hits[t] > 0);
    }
    assert(pair == any_pair);
}

} // verus!

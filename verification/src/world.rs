//! The world: the sprites of a game, each under its name, and the window
//! they live in.

use vstd::prelude::*;
use crate::sprite::{Color, Pos, Size, Sprite, Velocity};
use crate::units::shift;

verus! {

/// The sprites of a game, each under a name of its own, and the size of the
/// window. The order in which sprites were added has no meaning.
pub struct World {
    /// The names in use.
    pub names: Vec<String>,
    /// The sprites, each at the place of its name in `names`.
    pub sprites: Vec<Sprite>,
    /// The extent of the window.
    pub window: Size,
}

impl View for World {
    type V = Map<Seq<char>, Sprite>;

    /// The sprite that stands under each name.
    open spec fn view(&self) -> Map<Seq<char>, Sprite> {
        Map::new(
            |name: Seq<char>| self.keys().contains(name),
            |name: Seq<char>| self.items()[self.keys().index_of(name)],
        )
    }
}

impl World {
    /// The names in use, in storage order.
    pub open spec fn keys(&self) -> Seq<Seq<char>> {
        Seq::new(self.names@.len(), |i: int| self.names@[i]@)
    }

    /// The sprites, each at the place of its name in [`World::keys`].
    pub open spec fn items(&self) -> Seq<Sprite> {
        self.sprites@
    }

    /// Every name has one sprite and no name occurs twice.
    pub open spec fn wf(&self) -> bool {
        &&& self.keys().len() == self.items().len()
        &&& self.keys().no_duplicates()
    }

    /// The sprite under the name at place `i` is the sprite at place `i`.
    pub proof fn lemma_view_at(&self, i: int)
        requires
            self.wf(),
            0 <= i < self.keys().len(),
        ensures
            self@.dom().contains(self.keys()[i]),
            self.keys().index_of(self.keys()[i]) == i,
            self@[self.keys()[i]] == self.items()[i],
    {
        let name = self.keys()[i];
        assert(self.keys().contains(name));
        let j = self.keys().index_of(name);
        assert(0 <= j < self.keys().len() && self.keys()[j] == name);
    }

    /// A name in use has a place, and the sprite at that place is its sprite.
    pub proof fn lemma_view_of(&self, name: Seq<char>)
        requires
            self.wf(),
            self@.dom().contains(name),
        ensures
            0 <= self.keys().index_of(name) < self.keys().len(),
            self.keys()[self.keys().index_of(name)] == name,
            self@[name] == self.items()[self.keys().index_of(name)],
    {
        assert(self.keys().contains(name));
    }

    /// There are as many names in use as there are places.
    pub proof fn lemma_count(&self)
        requires
            self.wf(),
        ensures
            self@.dom().finite(),
            self@.dom().len() == self.keys().len(),
    {
        self.keys().unique_seq_to_set();
        vstd::seq_lib::seq_to_set_is_finite(self.keys());
        assert(self@.dom() =~= self.keys().to_set());
    }

    /// A world without sprites, in a window of 1024 by 768 pixels.
    pub fn empty() -> (world: World)
        ensures
            world.wf(),
            world@ == Map::<Seq<char>, Sprite>::empty(),
            world.keys().len() == 0,
            world.window == (Size { width: 1_024_000, height: 768_000 }),
    {
        let world = World {
            names: Vec::new(),
            sprites: Vec::new(),
            window: Size { width: 1_024_000, height: 768_000 },
        };
        assert(world@ =~= Map::<Seq<char>, Sprite>::empty());
        world
    }

    /// Whether every name has one sprite and no name occurs twice.
    pub fn is_well_formed(&self) -> (ok: bool)
        ensures
            ok == self.wf(),
    {
        if self.names.len() != self.sprites.len() {
            return false;
        }
        let n: usize = self.names.len();
        let mut i: usize = 0;
        while i < n
            invariant
                i <= n,
                n == self.names@.len(),
                n == self.keys().len(),
                self.keys().len() == self.items().len(),
                forall|a: int, b: int| 0 <= a < b < i ==> self.keys()[a] != self.keys()[b],
            decreases n - i,
        {
            let mut j: usize = 0;
            while j < i
                invariant
                    j <= i,
                    i < n,
                    n == self.names@.len(),
                    n == self.keys().len(),
                    forall|a: int| 0 <= a < j ==> self.keys()[a] != self.keys()[i as int],
                decreases i - j,
            {
                if self.names[j] == self.names[i] {
                    assert(self.keys()[j as int] == self.keys()[i as int]);
                    return false;
                }
                j = j + 1;
            }
            i = i + 1;
        }
        assert forall|a: int, b: int|
            0 <= a < self.keys().len() && 0 <= b < self.keys().len() && a != b implies self.keys()[a]
            != self.keys()[b] by {
            if a < b {
                assert(self.keys()[a] != self.keys()[b]);
            } else {
                assert(self.keys()[b] != self.keys()[a]);
            }
        }
        true
    }

    /// The place of `name` among the names, if it is in use.
    fn find(&self, name: &str) -> (place: Option<usize>)
        requires
            self.wf(),
        ensures
            match place {
                Some(i) => i < self.keys().len() && self.keys()[i as int] == name@,
                None => !self.keys().contains(name@),
            },
    {
        let wanted: String = name.to_owned();
        let mut i: usize = 0;
        while i < self.names.len()
            invariant
                i <= self.names@.len(),
                wanted@ == name@,
                forall|j: int| 0 <= j < i ==> self.keys()[j] != name@,
            decreases self.names@.len() - i,
        {
            if self.names[i] == wanted {
                return Some(i);
            }
            i = i + 1;
        }
        None
    }

    /// The number of sprites.
    pub fn len(&self) -> (n: usize)
        ensures
            n == self.keys().len(),
    {
        self.names.len()
    }

    /// Whether the world holds no sprite.
    pub fn is_empty(&self) -> (none: bool)
        ensures
            none == (self.keys().len() == 0),
    {
        self.names.len() == 0
    }

    /// Whether a sprite stands under `name`.
    pub fn contains_sprite(&self, name: &str) -> (found: bool)
        requires
            self.wf(),
        ensures
            found == self@.dom().contains(name@),
    {
        self.find(name).is_some()
    }

    /// Puts a new sprite under `name`. A sprite that stood there before is
    /// gone, with all that it held.
    pub fn add_sprite(&mut self, name: &str, pos: Pos, velocity: Velocity, size: Size, color: Color)
        requires
            old(self).wf(),
        ensures
            final(self).wf(),
            final(self).window == old(self).window,
            final(self)@ == old(self)@.insert(
                name@,
                Sprite { pos: pos, size: size, velocity: velocity, color: color },
            ),
    {
        let sprite = Sprite::new(pos, velocity, color, size);
        match self.find(name) {
            Some(i) => {
                self.put(i, sprite);
                proof {
                    lemma_view_after_put(*old(self), *self, i as int, sprite);
                }
            },
            None => {
                let ghost before = *self;
                self.names.push(name.to_owned());
                self.sprites.push(sprite);
                proof {
                    assert(self.keys() =~= before.keys().push(name@));
                    assert(self.items() =~= before.items().push(sprite));
                    lemma_view_after_push(before, *self, name@, sprite);
                }
            },
        }
    }

    /// Puts the sprite under `name` at `pos`. Without such a sprite nothing
    /// changes.
    pub fn set_sprite_pos(&mut self, name: &str, pos: Pos)
        requires
            old(self).wf(),
        ensures
            final(self).wf(),
            final(self).window == old(self).window,
            final(self)@ == if old(self)@.dom().contains(name@) {
                old(self)@.insert(name@, old(self)@[name@].placed(pos))
            } else {
                old(self)@
            },
    {
        match self.find(name) {
            Some(i) => {
                let mut sprite = self.sprite_at(i);
                sprite.set_pos(&pos);
                self.put(i, sprite);
                proof {
                    old(self).lemma_view_at(i as int);
                    lemma_view_after_put(*old(self), *self, i as int, sprite);
                }
            },
            None => {},
        }
    }

    /// Moves the sprite under `name` by `delta`. Without such a sprite
    /// nothing changes.
    pub fn move_sprite(&mut self, name: &str, delta: Pos)
        requires
            old(self).wf(),
        ensures
            final(self).wf(),
            final(self).window == old(self).window,
            final(self)@ == if old(self)@.dom().contains(name@) {
                old(self)@.insert(
                    name@,
                    old(self)@[name@].placed(old(self)@[name@].pos.shifted(delta)),
                )
            } else {
                old(self)@
            },
    {
        match self.find(name) {
            Some(i) => {
                let mut sprite = self.sprite_at(i);
                sprite.move_pos(delta.x, delta.y);
                self.put(i, sprite);
                proof {
                    old(self).lemma_view_at(i as int);
                    lemma_view_after_put(*old(self), *self, i as int, sprite);
                }
            },
            None => {},
        }
    }

    /// The sprite under `name`, which must be there.
    pub fn get_sprite(&self, name: &str) -> (sprite: &Sprite)
        requires
            self.wf(),
            self@.dom().contains(name@),
        ensures
            *sprite == self@[name@],
    {
        match self.find(name) {
            Some(i) => {
                proof {
                    self.lemma_view_at(i as int);
                }
                &self.sprites[i]
            },
            None => vstd::pervasive::unreached(),
        }
    }

    /// All the sprites, in storage order.
    pub fn get_sprites(&self) -> (sprites: &Vec<Sprite>)
        ensures
            sprites@ == self.items(),
    {
        &self.sprites
    }

    /// All the names, each at the place of its sprite in
    /// [`World::get_sprites`].
    pub fn get_names(&self) -> (names: &Vec<String>)
        ensures
            names@.len() == self.keys().len(),
            forall|i: int| 0 <= i < names@.len() ==> names@[i]@ == self.keys()[i],
    {
        &self.names
    }

    /// The sprite at place `i`.
    pub fn sprite_at(&self, i: usize) -> (sprite: Sprite)
        requires
            self.wf(),
            i < self.keys().len(),
        ensures
            sprite == self.items()[i as int],
    {
        self.sprites[i]
    }

    /// Replaces the sprite at place `i`, under the name that is there.
    pub fn put(&mut self, i: usize, sprite: Sprite)
        requires
            old(self).wf(),
            i < old(self).keys().len(),
        ensures
            final(self).wf(),
            final(self).window == old(self).window,
            final(self).keys() == old(self).keys(),
            final(self).items() == old(self).items().update(i as int, sprite),
    {
        self.sprites.set(i, sprite);
    }
}

/// Replacing the sprite at one place replaces the sprite under the name at
/// that place, and no other.
pub proof fn lemma_view_after_put(before: World, after: World, i: int, sprite: Sprite)
    requires
        before.wf(),
        0 <= i < before.keys().len(),
        after.keys() == before.keys(),
        after.items() == before.items().update(i, sprite),
    ensures
        after.wf(),
        after@ == before@.insert(before.keys()[i], sprite),
{
    before.lemma_view_at(i);
    after.lemma_view_at(i);
    assert forall|k: Seq<char>| after@.dom().contains(k) implies after@[k] == before@.insert(
        before.keys()[i],
        sprite,
    )[k] by {
        after.lemma_view_of(k);
    }
    assert(after@ =~= before@.insert(before.keys()[i], sprite));
}

/// Adding a sprite under a new name at a new place adds it under that name,
/// and changes no other.
pub proof fn lemma_view_after_push(before: World, after: World, name: Seq<char>, sprite: Sprite)
    requires
        before.wf(),
        !before.keys().contains(name),
        after.keys() == before.keys().push(name),
        after.items() == before.items().push(sprite),
    ensures
        after.wf(),
        after@ == before@.insert(name, sprite),
{
    let n = before.keys().len() as int;
    assert forall|a: int, b: int|
        0 <= a < after.keys().len() && 0 <= b < after.keys().len() && a != b implies after.keys()[a]
        != after.keys()[b] by {
        if a < n {
            assert(before.keys().contains(after.keys()[a]));
        }
        if b < n {
            assert(before.keys().contains(after.keys()[b]));
        }
    }
    after.lemma_view_at(n);
    assert forall|k: Seq<char>| after@.dom().contains(k) <==> before@.insert(
        name,
        sprite,
    ).dom().contains(k) by {
        if after.keys().contains(k) {
            let j = after.keys().index_of(k);
            if j < n {
                assert(before.keys()[j] == k);
            }
        }
        if before.keys().contains(k) {
            let j = before.keys().index_of(k);
            assert(after.keys()[j] == k);
        }
    }
    assert forall|k: Seq<char>| after@.dom().contains(k) implies after@[k] == before@.insert(
        name,
        sprite,
    )[k] by {
        if k != name {
            let j = after.keys().index_of(k);
            assert(j < n);
            assert(before.keys()[j] == k);
            before.lemma_view_at(j);
            after.lemma_view_at(j);
        }
    }
    assert(after@ =~= before@.insert(name, sprite));
}

/// A sprite added under a name that is in use takes the place of the one
/// that stood there: nothing of the earlier sprite is left, and the world is
/// as if the earlier one had never been added.
pub proof fn lemma_add_replaces(
    sprites: Map<Seq<char>, Sprite>,
    name: Seq<char>,
    earlier: Sprite,
    later: Sprite,
)
    ensures
        sprites.insert(name, earlier).insert(name, later) == sprites.insert(name, later),
        sprites.insert(name, earlier).insert(name, later)[name] == later,
        sprites.insert(name, earlier).insert(name, later).dom() == sprites.dom().insert(name),
{
    assert(sprites.insert(name, earlier).insert(name, later) =~= sprites.insert(name, later));
}

} // verus!

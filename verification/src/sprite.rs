//! Sprites and sprite groups: the update-and-render pipeline.
//!
//! A sprite owns a drawable image, a placement rectangle, an optional
//! rectangle animation that moves it each frame, an optional image animation
//! that re-renders its image each frame, and a liveness flag. A group owns an
//! ordered collection of sprites and drives them as a batch: `update` runs
//! the rectangle animations, then every sprite's own update hook (failing
//! fast on the first error), then removes the killed sprites; `draw` blits
//! every sprite in insertion order onto a destination surface.

use vstd::prelude::*;
use crate::error::GameError;
use crate::rect::Rect;
use crate::surface::{BlendMode, BlitRecord, Surface};

verus! {

/// A strategy that computes a fresh placement rectangle each frame from the
/// current one and its own cursor, advancing the cursor once per call.
pub trait RectAnimation: Sized {
    /// The state of this animation after one cursor advance.
    spec fn stepped(&self) -> Self;

    /// The rectangle this state produces for the input `rect`.
    spec fn rect_for(&self, rect: Rect) -> Rect;

    /// Returns the rectangle for the cursor position read at entry, then
    /// advances the cursor: two calls in a row see different positions.
    fn update_rectangle(&mut self, rect: &Rect) -> (r: Rect)
        ensures
            r == old(self).rect_for(*rect),
            *final(self) == old(self).stepped(),
    ;
}

/// A strategy that renders a fresh image each frame from a source image and
/// its own cursor, advancing the cursor once per call. The source is only
/// read, never changed.
pub trait ImageAnimation<S: Surface>: Sized {
    /// The state of this animation after one cursor advance.
    spec fn stepped(&self) -> Self;

    /// The view of the image this state produces from `image`.
    spec fn image_for(&self, image: S) -> S::V;

    /// Produces the image for the cursor position read at entry; the cursor
    /// advances whether or not the backend succeeds.
    fn transform_image(&mut self, image: &S) -> (r: Result<S, GameError>)
        ensures
            *final(self) == old(self).stepped(),
            r matches Ok(out) ==> out@ == old(self).image_for(*image) && out.size_spec()
                == image.size_spec(),
    ;
}

/// A drawable game object: an image placed by a rectangle, with optional
/// per-frame animations and a one-way liveness flag.
pub trait Sprite: Sized {
    /// The surface implementation this sprite's image uses.
    type Surf: Surface;

    /// The current placement rectangle.
    spec fn rect_spec(&self) -> Rect;

    /// Whether this sprite has been killed. Killed sprites are removed at
    /// the next group update.
    spec fn killed_spec(&self) -> bool;

    /// The view of this sprite's source image.
    spec fn image_view(&self) -> <Self::Surf as View>::V;

    /// This sprite after the rectangle-animation pass of a group update.
    spec fn rect_animated(&self) -> Self;

    /// Whether this sprite's own update hook succeeds from this state.
    spec fn hook_ok(&self) -> bool;

    /// This sprite after a successful run of its own update hook.
    spec fn hooked(&self) -> Self;

    /// Whether this sprite carries an image animation.
    spec fn has_image_animation(&self) -> bool;

    /// This sprite after the image-animation cursor advance of a draw pass.
    spec fn image_animated(&self) -> Self;

    /// The view of the image the image animation produces, when there is one
    /// and the backend succeeds.
    spec fn animated_image_view(&self) -> <Self::Surf as View>::V;

    fn image(&self) -> (r: &Self::Surf)
        ensures
            r@ == self.image_view(),
    ;

    fn rect(&self) -> (r: &Rect)
        ensures
            *r == self.rect_spec(),
    ;

    /// Replaces the placement rectangle, leaving image and liveness alone.
    fn set_rect(&mut self, rect: Rect)
        ensures
            final(self).rect_spec() == rect,
            final(self).killed_spec() == old(self).killed_spec(),
            final(self).image_view() == old(self).image_view(),
    ;

    /// Marks this sprite for removal at the next group update; its image and
    /// rectangle stay as they are, so it can still be drawn this frame.
    fn kill(&mut self)
        ensures
            final(self).killed_spec(),
            final(self).rect_spec() == old(self).rect_spec(),
            final(self).image_view() == old(self).image_view(),
    ;

    fn is_killed(&self) -> (b: bool)
        ensures
            b == self.killed_spec(),
    ;

    /// The sprite's own per-frame hook, run by the group after the rectangle
    /// animations; it succeeds exactly when `hook_ok` holds.
    fn update(&mut self) -> (r: Result<(), GameError>)
        ensures
            r.is_ok() == old(self).hook_ok(),
            old(self).hook_ok() ==> *final(self) == old(self).hooked(),
    ;

    /// Runs the rectangle animation once, when there is one: the new
    /// rectangle is computed from the cursor read at entry, then the cursor
    /// advances. Liveness and image are untouched.
    fn animate_rect(&mut self)
        ensures
            *final(self) == old(self).rect_animated(),
            final(self).killed_spec() == old(self).killed_spec(),
            final(self).image_view() == old(self).image_view(),
            final(self).hook_ok() == old(self).rect_animated().hook_ok(),
    ;

    /// Runs the image animation once, when there is one, and returns the
    /// image to draw this frame: `Ok(Some(..))` with the animated image,
    /// `Ok(None)` when the sprite has no image animation (its raw image is
    /// drawn instead), or the backend's error. The animation cursor advances
    /// whether or not the backend succeeds; rectangle and liveness are
    /// untouched.
    fn animated_image(&mut self) -> (r: Result<Option<Self::Surf>, GameError>)
        ensures
            *final(self) == old(self).image_animated(),
            final(self).rect_spec() == old(self).rect_spec(),
            final(self).killed_spec() == old(self).killed_spec(),
            final(self).image_view() == old(self).image_view(),
            final(self).has_image_animation() == old(self).has_image_animation(),
            r matches Ok(Some(img)) ==> old(self).has_image_animation() && img@ == old(
                self,
            ).animated_image_view(),
            r matches Ok(None) ==> !old(self).has_image_animation(),
            r matches Err(_) ==> old(self).has_image_animation(),
    ;
}

/// The concrete sprite: an image, a rectangle, the two optional animation
/// strategies, and a liveness flag. Its own update hook does nothing.
pub struct DefaultSprite<S: Surface, IA: ImageAnimation<S>, RA: RectAnimation> {
    image: S,
    rectangle: Rect,
    image_animation: Option<IA>,
    rectangle_animation: Option<RA>,
    is_killed: bool,
}

impl<S: Surface, IA: ImageAnimation<S>, RA: RectAnimation> DefaultSprite<S, IA, RA> {
    /// The rectangle animation this sprite carries, if any.
    pub closed spec fn rect_animation_spec(&self) -> Option<RA> {
        self.rectangle_animation
    }

    /// The image animation this sprite carries, if any.
    pub closed spec fn image_animation_spec(&self) -> Option<IA> {
        self.image_animation
    }

    /// The image this sprite owns.
    pub closed spec fn image_spec(&self) -> S {
        self.image
    }

    /// A static sprite showing `image`, centered at `center`.
    pub fn new(image: S, center: (i32, i32)) -> (s: Self)
        requires
            image.size_spec().0 <= i32::MAX,
            image.size_spec().1 <= i32::MAX,
            i32::MIN <= center.0 - crate::rect::half(image.size_spec().0 as int) <= i32::MAX,
            i32::MIN <= center.1 - crate::rect::half(image.size_spec().1 as int) <= i32::MAX,
        ensures
            s.image_spec() == image,
            s.image_view() == image@,
            s.rect_spec().x == center.0 - crate::rect::half(image.size_spec().0 as int),
            s.rect_spec().y == center.1 - crate::rect::half(image.size_spec().1 as int),
            s.rect_spec().w == image.size_spec().0,
            s.rect_spec().h == image.size_spec().1,
            !s.killed_spec(),
            s.rect_animation_spec() is None,
            s.image_animation_spec() is None,
    {
        let size = image.get_size();
        let rectangle = Rect::new_center(center, (size.0 as i32, size.1 as i32));
        DefaultSprite {
            image,
            rectangle,
            image_animation: None,
            rectangle_animation: None,
            is_killed: false,
        }
    }

    /// A sprite with optional animation strategies; its rectangle starts at
    /// the image's natural size centered on the origin, so a sprite without
    /// a rectangle animation stays there until `set_rect` is called.
    pub fn new_animated(
        image: S,
        image_animation: Option<IA>,
        rectangle_animation: Option<RA>,
    ) -> (s: Self)
        requires
            image.size_spec().0 <= i32::MAX,
            image.size_spec().1 <= i32::MAX,
        ensures
            s.image_spec() == image,
            s.image_view() == image@,
            s.rect_spec().x == -crate::rect::half(image.size_spec().0 as int),
            s.rect_spec().y == -crate::rect::half(image.size_spec().1 as int),
            s.rect_spec().w == image.size_spec().0,
            s.rect_spec().h == image.size_spec().1,
            !s.killed_spec(),
            s.rect_animation_spec() == rectangle_animation,
            s.image_animation_spec() == image_animation,
    {
        let size = image.get_size();
        let rectangle = Rect::new_center((0, 0), (size.0 as i32, size.1 as i32));
        DefaultSprite { image, rectangle, image_animation, rectangle_animation, is_killed: false }
    }
}

impl<S: Surface, IA: ImageAnimation<S>, RA: RectAnimation> Sprite for DefaultSprite<S, IA, RA> {
    type Surf = S;

    closed spec fn rect_spec(&self) -> Rect {
        self.rectangle
    }

    closed spec fn killed_spec(&self) -> bool {
        self.is_killed
    }

    closed spec fn image_view(&self) -> S::V {
        self.image@
    }

    closed spec fn rect_animated(&self) -> Self {
        match self.rectangle_animation {
            Some(ra) => DefaultSprite {
                rectangle: ra.rect_for(self.rectangle),
                rectangle_animation: Some(ra.stepped()),
                ..*self
            },
            None => *self,
        }
    }

    open spec fn hook_ok(&self) -> bool {
        true
    }

    open spec fn hooked(&self) -> Self {
        *self
    }

    closed spec fn has_image_animation(&self) -> bool {
        self.image_animation is Some
    }

    closed spec fn image_animated(&self) -> Self {
        match self.image_animation {
            Some(ia) => DefaultSprite { image_animation: Some(ia.stepped()), ..*self },
            None => *self,
        }
    }

    closed spec fn animated_image_view(&self) -> S::V {
        match self.image_animation {
            Some(ia) => ia.image_for(self.image),
            None => self.image@,
        }
    }

    fn image(&self) -> &S {
        &self.image
    }

    fn rect(&self) -> &Rect {
        &self.rectangle
    }

    fn set_rect(&mut self, rect: Rect)
        ensures
            final(self).rect_animation_spec() == old(self).rect_animation_spec(),
            final(self).image_animation_spec() == old(self).image_animation_spec(),
            final(self).image_spec() == old(self).image_spec(),
    {
        self.rectangle = rect;
    }

    fn kill(&mut self)
        ensures
            final(self).rect_animation_spec() == old(self).rect_animation_spec(),
            final(self).image_animation_spec() == old(self).image_animation_spec(),
            final(self).image_spec() == old(self).image_spec(),
    {
        self.is_killed = true;
    }

    fn is_killed(&self) -> bool {
        self.is_killed
    }

    fn update(&mut self) -> Result<(), GameError> {
        Ok(())
    }

    fn animate_rect(&mut self) {
        let rectangle = match &mut self.rectangle_animation {
            Some(animation) => Some(animation.update_rectangle(&self.rectangle)),
            None => None,
        };
        match rectangle {
            Some(rectangle) => self.rectangle = rectangle,
            None => {},
        }
    }

    fn animated_image(&mut self) -> Result<Option<S>, GameError> {
        match &mut self.image_animation {
            Some(animation) => {
                let image = animation.transform_image(&self.image)?;
                Ok(Some(image))
            },
            None => Ok(None),
        }
    }
}

/// The rectangle-animation pass applied to every sprite, in order.
pub open spec fn rect_pass<Sp: Sprite>(s: Seq<Sp>) -> Seq<Sp> {
    s.map_values(|x: Sp| x.rect_animated())
}

/// Every sprite's own update hook succeeds.
pub open spec fn hooks_ok<Sp: Sprite>(s: Seq<Sp>) -> bool {
    forall|i: int| 0 <= i < s.len() ==> (#[trigger] s[i]).hook_ok()
}

/// Every sprite's own update hook applied, in order.
pub open spec fn hook_pass<Sp: Sprite>(s: Seq<Sp>) -> Seq<Sp> {
    s.map_values(|x: Sp| x.hooked())
}

/// The sprites left after the killed ones are removed, keeping their
/// relative order.
pub open spec fn surviving<Sp: Sprite>(s: Seq<Sp>) -> Seq<Sp> {
    s.filter(|x: Sp| !x.killed_spec())
}

/// The image-animation pass applied to every sprite, in order.
pub open spec fn image_pass<Sp: Sprite>(s: Seq<Sp>) -> Seq<Sp> {
    s.map_values(|x: Sp| x.image_animated())
}

/// The image a draw pass shows for this sprite: the image animation's
/// output when the sprite carries one, its raw image otherwise.
pub open spec fn drawn_view<Sp: Sprite>(s: Sp) -> <Sp::Surf as View>::V {
    if s.has_image_animation() {
        s.animated_image_view()
    } else {
        s.image_view()
    }
}

/// The blits a draw pass performs for these sprites, in order: each sprite's
/// drawn image, alpha-blended at its rectangle's top-left corner.
pub open spec fn blit_records_of<Sp: Sprite>(s: Seq<Sp>) -> Seq<
    BlitRecord<<Sp::Surf as View>::V>,
> {
    s.map_values(
        |x: Sp| ((x.rect_spec().x, x.rect_spec().y), BlendMode::Blend, drawn_view(x)),
    )
}

/// An update pass that failed fast at sprite `k`: every sprite went through
/// the rectangle-animation pass, the hooks before `k` ran, sprite `k`'s hook
/// is the first that fails, the sprites after `k` were not touched again,
/// and nothing was removed.
pub open spec fn update_failed_at<Sp: Sprite>(pre: Seq<Sp>, post: Seq<Sp>, k: int) -> bool {
    &&& 0 <= k < pre.len()
    &&& !rect_pass(pre)[k].hook_ok()
    &&& forall|j: int| 0 <= j < k ==> (#[trigger] rect_pass(pre)[j]).hook_ok()
    &&& post.len() == pre.len()
    &&& forall|j: int| 0 <= j < k ==> post[j] == (#[trigger] rect_pass(pre)[j]).hooked()
    &&& forall|j: int| k < j < pre.len() ==> post[j] == rect_pass(pre)[j]
}

/// A draw pass that failed fast at sprite `k`: the sprites up to and
/// including `k` went through the image-animation pass, the ones after were
/// not touched, and nothing was removed.
pub open spec fn draw_failed_at<Sp: Sprite>(pre: Seq<Sp>, post: Seq<Sp>, k: int) -> bool {
    &&& 0 <= k < pre.len()
    &&& post.len() == pre.len()
    &&& forall|j: int| 0 <= j <= k ==> post[j] == (#[trigger] pre[j]).image_animated()
    &&& forall|j: int| k < j < pre.len() ==> post[j] == #[trigger] pre[j]
}

/// An ordered batch of sprites updated and drawn together. Its view is the
/// sequence of sprites it holds, in insertion order.
pub trait SpriteGroup<Sp: Sprite>: View<V = Seq<Sp>> + Sized {
    fn sprites(&self) -> (r: &Vec<Sp>)
        ensures
            r@ == self@,
    ;

    fn sprites_mut(&mut self) -> (r: &mut Vec<Sp>)
        ensures
            (*r)@ == old(self)@,
            final(self)@ == (*final(r))@,
    ;

    /// One frame of lifecycle work: every sprite's rectangle animation runs
    /// (computing the new rectangle before advancing the cursor), then every
    /// sprite's own update hook in insertion order, stopping at the first
    /// error, and finally — only when all hooks succeeded — the killed
    /// sprites are removed, the survivors keeping their relative order.
    fn update(&mut self) -> (r: Result<(), GameError>)
        ensures
            r.is_ok() == hooks_ok(rect_pass(old(self)@)),
            r matches Ok(_) ==> final(self)@ == surviving(hook_pass(rect_pass(old(self)@))),
            r matches Ok(_) ==> forall|i: int|
                0 <= i < final(self)@.len() ==> !(#[trigger] final(self)@[i]).killed_spec(),
            r matches Err(_) ==> exists|k: int| update_failed_at(old(self)@, final(self)@, k),
    ;

    /// Draws every sprite onto `surface` in insertion order, stopping at the
    /// first backend error: a sprite with an image animation is drawn as its
    /// freshly animated image (advancing that cursor), any other as its raw
    /// image, each blitted with alpha blending at its rectangle's top-left
    /// corner — the destination's blit record gains exactly the records
    /// `blit_records_of` lists. No sprite is removed.
    fn draw(&mut self, surface: &mut Sp::Surf) -> (r: Result<(), GameError>)
        ensures
            final(surface).size_spec() == old(surface).size_spec(),
            r matches Ok(_) ==> final(self)@ == image_pass(old(self)@)
                && final(surface).blit_log() == old(surface).blit_log() + blit_records_of(
                old(self)@,
            ),
            r matches Err(_) ==> exists|k: int|
                draw_failed_at(old(self)@, final(self)@, k) && final(surface).blit_log()
                    == old(surface).blit_log() + blit_records_of(old(self)@.subrange(0, k)),
    ;
}

/// `s.push(x)` filtered is `s` filtered, with `x` appended when it passes.
proof fn lemma_filter_push<A>(s: Seq<A>, pred: spec_fn(A) -> bool, x: A)
    ensures
        s.push(x).filter(pred) == if pred(x) {
            s.filter(pred).push(x)
        } else {
            s.filter(pred)
        },
{
    reveal(Seq::filter);
    assert(s.push(x).drop_last() =~= s);
    assert(s.push(x).last() == x);
}

/// A `DefaultSprite` without a rectangle animation is static: the
/// rectangle-animation pass and its own update hook leave it exactly as it
/// is, so repeated group updates never move it.
pub proof fn lemma_static_sprite<S: Surface, IA: ImageAnimation<S>, RA: RectAnimation>(
    s: DefaultSprite<S, IA, RA>,
)
    requires
        s.rect_animation_spec() is None,
    ensures
        s.rect_animated() == s,
        s.hooked() == s,
        s.hook_ok(),
{
}

/// The passes of a group update preserve a `DefaultSprite`'s liveness flag,
/// and its own update hook (which does nothing) always succeeds; the
/// image-animation pass of a draw touches nothing but the animation cursor —
/// in particular a sprite's own image survives every draw unchanged.
pub proof fn lemma_default_sprite_passes<S: Surface, IA: ImageAnimation<S>, RA: RectAnimation>(
    s: DefaultSprite<S, IA, RA>,
)
    ensures
        s.rect_animated().killed_spec() == s.killed_spec(),
        s.rect_animated().image_spec() == s.image_spec(),
        s.rect_animated().image_view() == s.image_view(),
        s.rect_animated().image_animation_spec() == s.image_animation_spec(),
        s.hooked() == s,
        s.hook_ok(),
        s.image_animated().killed_spec() == s.killed_spec(),
        s.image_animated().rect_spec() == s.rect_spec(),
        s.image_animated().image_spec() == s.image_spec(),
        s.image_animated().image_view() == s.image_view(),
        s.image_animated().rect_animation_spec() == s.rect_animation_spec(),
{
}

/// What the rectangle-animation pass does to a `DefaultSprite` carrying the
/// rectangle animation `ra`: its rectangle becomes `ra.rect_for` of the old
/// one, the animation steps once, and everything else is untouched.
pub proof fn lemma_sprite_rect_animated<S: Surface, IA: ImageAnimation<S>, RA: RectAnimation>(
    s: DefaultSprite<S, IA, RA>,
    ra: RA,
)
    requires
        s.rect_animation_spec() == Some(ra),
    ensures
        s.rect_animated().rect_spec() == ra.rect_for(s.rect_spec()),
        s.rect_animated().rect_animation_spec() == Some(ra.stepped()),
        s.rect_animated().killed_spec() == s.killed_spec(),
        s.rect_animated().image_spec() == s.image_spec(),
        s.rect_animated().image_animation_spec() == s.image_animation_spec(),
{
}

/// What the image-animation pass does to a `DefaultSprite` carrying the
/// image animation `ia`: the drawn image is `ia.image_for` of the sprite's
/// own image, the animation steps once, and everything else is untouched.
pub proof fn lemma_sprite_image_animated<S: Surface, IA: ImageAnimation<S>, RA: RectAnimation>(
    s: DefaultSprite<S, IA, RA>,
    ia: IA,
)
    requires
        s.image_animation_spec() == Some(ia),
    ensures
        s.has_image_animation(),
        s.animated_image_view() == ia.image_for(s.image_spec()),
        drawn_view(s) == ia.image_for(s.image_spec()),
        s.image_animated().image_animation_spec() == Some(ia.stepped()),
        s.image_animated().rect_spec() == s.rect_spec(),
        s.image_animated().killed_spec() == s.killed_spec(),
        s.image_animated().image_spec() == s.image_spec(),
        s.image_animated().image_view() == s.image_view(),
{
}

/// A `DefaultSprite` without an image animation draws its raw image, and the
/// image-animation pass of a draw leaves it exactly as it is.
pub proof fn lemma_sprite_no_image_animation<S: Surface, IA: ImageAnimation<S>, RA: RectAnimation>(
    s: DefaultSprite<S, IA, RA>,
)
    requires
        s.image_animation_spec() is None,
    ensures
        !s.has_image_animation(),
        s.image_animated() == s,
        drawn_view(s) == s.image_view(),
{
}

/// What a group update does to `DefaultSprite`s: it removes all and only
/// the killed sprites — the survivors are exactly the sprites that were not
/// killed beforehand, in their original relative order, each moved one step
/// by its rectangle animation — and no killed sprite remains afterwards.
pub proof fn lemma_update_removes_killed<S: Surface, IA: ImageAnimation<S>, RA: RectAnimation>(
    s: Seq<DefaultSprite<S, IA, RA>>,
)
    ensures
        surviving(hook_pass(rect_pass(s))) == s.filter(
            |x: DefaultSprite<S, IA, RA>| !x.killed_spec(),
        ).map_values(|x: DefaultSprite<S, IA, RA>| x.rect_animated()),
        forall|i: int|
            0 <= i < surviving(hook_pass(rect_pass(s))).len() ==> !(#[trigger] surviving(
                hook_pass(rect_pass(s)),
            )[i]).killed_spec(),
    decreases s.len(),
{
    reveal(Seq::filter);
    let alive = |x: DefaultSprite<S, IA, RA>| !x.killed_spec();
    let animate = |x: DefaultSprite<S, IA, RA>| x.rect_animated();
    assert(hook_pass(rect_pass(s)) =~= rect_pass(s));
    if s.len() == 0 {
        assert(rect_pass(s) =~= Seq::<DefaultSprite<S, IA, RA>>::empty());
        assert(s.filter(alive).map_values(animate) =~= Seq::<
            DefaultSprite<S, IA, RA>,
        >::empty());
    } else {
        let init = s.drop_last();
        let last = s.last();
        lemma_update_removes_killed(init);
        assert(rect_pass(s) =~= rect_pass(init).push(last.rect_animated()));
        lemma_filter_push(rect_pass(init), alive, last.rect_animated());
        assert(hook_pass(rect_pass(init)) =~= rect_pass(init));
        if alive(last) {
            assert(s.filter(alive) == init.filter(alive).push(last));
            assert(s.filter(alive).map_values(animate) =~= init.filter(alive).map_values(
                animate,
            ).push(last.rect_animated()));
        } else {
            assert(s.filter(alive) == init.filter(alive));
        }
    }
    assert forall|i: int| 0 <= i < surviving(hook_pass(rect_pass(s))).len() implies !(
    #[trigger] surviving(hook_pass(rect_pass(s)))[i]).killed_spec() by {
        let mapped = s.filter(alive).map_values(animate);
        assert(surviving(hook_pass(rect_pass(s)))[i] == mapped[i]);
        Seq::lemma_filter_pred(s, alive, i);
    }
}

/// The concrete sprite group: a vector of sprites in insertion order.
pub struct Group<Sp: Sprite> {
    sprites: Vec<Sp>,
}

impl<Sp: Sprite> View for Group<Sp> {
    type V = Seq<Sp>;

    closed spec fn view(&self) -> Seq<Sp> {
        self.sprites@
    }
}

impl<Sp: Sprite> Group<Sp> {
    /// A group holding the given sprites, in order.
    pub fn new(sprites: Vec<Sp>) -> (g: Group<Sp>)
        ensures
            g@ == sprites@,
    {
        Group { sprites }
    }
}

impl<Sp: Sprite> SpriteGroup<Sp> for Group<Sp> {
    fn sprites(&self) -> &Vec<Sp> {
        &self.sprites
    }

    fn sprites_mut(&mut self) -> &mut Vec<Sp> {
        &mut self.sprites
    }

    fn update(&mut self) -> Result<(), GameError> {
        let ghost pre = self.sprites@;
        let n = self.sprites.len();
        let mut i: usize = 0;
        while i < n
            invariant
                pre == old(self)@,
                n == pre.len(),
                self.sprites@.len() == n,
                i <= n,
                forall|j: int|
                    0 <= j < i ==> self.sprites@[j] == (#[trigger] pre[j]).rect_animated(),
                forall|j: int| i <= j < n ==> self.sprites@[j] == #[trigger] pre[j],
            decreases n - i,
        {
            let s = &mut self.sprites[i];
            s.animate_rect();
            i += 1;
        }
        proof {
            assert(self.sprites@ =~= rect_pass(pre));
        }
        let ghost rp = rect_pass(pre);
        let mut i: usize = 0;
        while i < n
            invariant
                pre == old(self)@,
                n == pre.len(),
                rp == rect_pass(pre),
                rp.len() == n,
                self.sprites@.len() == n,
                i <= n,
                forall|j: int|
                    0 <= j < i ==> (#[trigger] rp[j]).hook_ok() && self.sprites@[j]
                        == rp[j].hooked(),
                forall|j: int| i <= j < n ==> self.sprites@[j] == #[trigger] rp[j],
            decreases n - i,
        {
            let s = &mut self.sprites[i];
            let res = s.update();
            if let Err(e) = res {
                proof {
                    assert(update_failed_at(pre, self.sprites@, i as int));
                    assert(!hooks_ok(rp));
                    assert(self@ == self.sprites@);
                    assert(exists|k: int| update_failed_at(old(self)@, self@, k));
                }
                return Err(e);
            }
            i += 1;
        }
        let ghost hp = self.sprites@;
        proof {
            assert(hp =~= hook_pass(rect_pass(pre)));
        }
        let mut kept: Vec<Sp> = Vec::new();
        while self.sprites.len() > 0
            invariant
                hp == hook_pass(rect_pass(old(self)@)),
                self.sprites@.len() <= hp.len(),
                self.sprites@ == hp.subrange(
                    hp.len() - self.sprites@.len(),
                    hp.len() as int,
                ),
                kept@ == surviving(hp.subrange(0, hp.len() - self.sprites@.len())),
            decreases self.sprites.len(),
        {
            let ghost done = hp.len() - self.sprites@.len();
            let s = self.sprites.remove(0);
            proof {
                assert(s == hp[done]);
                assert(self.sprites@ =~= hp.subrange(done + 1, hp.len() as int));
                assert(hp.subrange(0, done + 1) =~= hp.subrange(0, done).push(hp[done]));
                lemma_filter_push(
                    hp.subrange(0, done),
                    |x: Sp| !x.killed_spec(),
                    hp[done],
                );
            }
            if !s.is_killed() {
                kept.push(s);
            }
        }
        proof {
            assert(hp.subrange(0, hp.len() as int) =~= hp);
            assert forall|i: int| 0 <= i < kept@.len() implies !(#[trigger] kept@[i]).killed_spec()
                by {
                Seq::lemma_filter_pred(hp, |x: Sp| !x.killed_spec(), i);
            }
        }
        self.sprites = kept;
        Ok(())
    }

    fn draw(&mut self, surface: &mut Sp::Surf) -> Result<(), GameError> {
        let ghost pre = self.sprites@;
        let n = self.sprites.len();
        let mut i: usize = 0;
        while i < n
            invariant
                pre == old(self)@,
                n == pre.len(),
                self.sprites@.len() == n,
                i <= n,
                forall|j: int|
                    0 <= j < i ==> self.sprites@[j] == (#[trigger] pre[j]).image_animated(),
                forall|j: int| i <= j < n ==> self.sprites@[j] == #[trigger] pre[j],
                surface.size_spec() == old(surface).size_spec(),
                surface.blit_log() == old(surface).blit_log() + blit_records_of(
                    pre.subrange(0, i as int),
                ),
            decreases n - i,
        {
            let ghost log_before = surface.blit_log();
            let s = &mut self.sprites[i];
            let animated = s.animated_image();
            match animated {
                Err(e) => {
                    proof {
                        assert(self@ == self.sprites@);
                        assert(draw_failed_at(pre, self.sprites@, i as int));
                        assert(surface.blit_log() == old(surface).blit_log()
                            + blit_records_of(old(self)@.subrange(0, i as int)));
                        assert(exists|k: int|
                            draw_failed_at(old(self)@, self@, k) && surface.blit_log() == old(
                                surface,
                            ).blit_log() + blit_records_of(old(self)@.subrange(0, k)));
                    }
                    return Err(e);
                },
                Ok(Some(image)) => {
                    let position = s.rect().get_top_left();
                    proof {
                        assert(image@ == drawn_view(pre[i as int]));
                        assert(position == (pre[i as int].rect_spec().x, pre[
                            i as int
                        ].rect_spec().y));
                    }
                    let res = surface.blit(&image, position, BlendMode::Blend);
                    if let Err(e) = res {
                        proof {
                            assert(self@ == self.sprites@);
                            assert(draw_failed_at(pre, self.sprites@, i as int));
                            assert(surface.blit_log() == old(surface).blit_log()
                                + blit_records_of(old(self)@.subrange(0, i as int)));
                            assert(exists|k: int|
                                draw_failed_at(old(self)@, self@, k) && surface.blit_log() == old(
                                    surface,
                                ).blit_log() + blit_records_of(old(self)@.subrange(0, k)));
                        }
                        return Err(e);
                    }
                },
                Ok(None) => {
                    let position = s.rect().get_top_left();
                    proof {
                        assert(s.image_view() == drawn_view(pre[i as int]));
                        assert(position == (pre[i as int].rect_spec().x, pre[
                            i as int
                        ].rect_spec().y));
                    }
                    let res = surface.blit(s.image(), position, BlendMode::Blend);
                    if let Err(e) = res {
                        proof {
                            assert(self@ == self.sprites@);
                            assert(draw_failed_at(pre, self.sprites@, i as int));
                            assert(surface.blit_log() == old(surface).blit_log()
                                + blit_records_of(old(self)@.subrange(0, i as int)));
                            assert(exists|k: int|
                                draw_failed_at(old(self)@, self@, k) && surface.blit_log() == old(
                                    surface,
                                ).blit_log() + blit_records_of(old(self)@.subrange(0, k)));
                        }
                        return Err(e);
                    }
                },
            }
            proof {
                assert(blit_records_of(pre.subrange(0, i + 1)) =~= blit_records_of(
                    pre.subrange(0, i as int),
                ).push(
                    (
                        (pre[i as int].rect_spec().x, pre[i as int].rect_spec().y),
                        BlendMode::Blend,
                        drawn_view(pre[i as int]),
                    ),
                ));
            }
            i += 1;
        }
        proof {
            assert(self.sprites@ =~= image_pass(pre));
            assert(pre.subrange(0, n as int) =~= pre);
        }
        Ok(())
    }
}

} // verus!

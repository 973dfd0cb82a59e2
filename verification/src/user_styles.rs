//! A style for each user, handed out in order from a pool of random
//! colours that grows by fifty whenever it runs out.
use vstd::prelude::*;

use crate::config::{Color, Style};
use crate::text::text_eq;

verus! {

/// How many styles are added whenever the pool runs out.
pub const STYLE_BATCH: usize = 50;

/// Calls `random_color::RandomColor::new().to_rgb_array()`: a random colour
/// as red, green and blue. Nothing is stated of which colour comes back.
#[verifier::external_body]
fn random_rgb() -> (r: (u8, u8, u8)) {
    let [red, green, blue] = random_color::RandomColor::new().to_rgb_array();
    (red, green, blue)
}

/// A style with an RGB foreground colour and nothing else.
pub open spec fn is_colour_style(s: Style) -> bool {
    &&& (match s.fg {
        Some(Color::Rgb(_, _, _)) => true,
        _ => false,
    })
    &&& s.bg is None
    &&& !s.bold
    &&& !s.rapid_blink
}

/// The style given by a user's name, if any (the first entry with that
/// name).
pub open spec fn style_lookup(entries: Seq<(String, Style)>, user: Seq<char>) -> Option<Style>
    decreases entries.len(),
{
    if entries.len() == 0 {
        None
    } else if entries[0].0@ == user {
        Some(entries[0].1)
    } else {
        style_lookup(entries.drop_first(), user)
    }
}

/// No two entries name the same user.
pub open spec fn users_unique(entries: Seq<(String, Style)>) -> bool {
    forall|i: int, j: int|
        0 <= i < entries.len() && 0 <= j < entries.len() && i != j ==> (#[trigger] entries[i]).0@
            != (#[trigger] entries[j]).0@
}

/// The styles of the users.
#[derive(Debug)]
pub struct UserStyles {
    /// Each user's style, one entry per user.
    pub user_style_map: Vec<(String, Style)>,
    /// The styles to hand out.
    pub styles: Vec<Style>,
    /// The next style to hand out.
    pub styles_index: usize,
}

/// What giving the user `user` a style does: nothing if they have one;
/// else a new last entry with the next style, the index advanced and the
/// pool kept (and grown if it ran out). Every other user's style stays, and
/// `user` has one afterwards.
pub open spec fn updated(before: UserStyles, after: UserStyles, user: Seq<char>) -> bool {
    &&& style_lookup(before.user_style_map@, user) is Some ==> after == before
    &&& style_lookup(before.user_style_map@, user) is None ==> {
        &&& after.user_style_map@.len() == before.user_style_map@.len() + 1
        &&& after.user_style_map@.drop_last() == before.user_style_map@
        &&& after.user_style_map@.last().0@ == user
        &&& after.user_style_map@.last().1 == before.styles@[before.styles_index as int]
        &&& after.styles_index == before.styles_index + 1
        &&& after.styles@.take(before.styles@.len() as int) == before.styles@
    }
    &&& forall|u: Seq<char>|
        u != user ==> #[trigger] style_lookup(after.user_style_map@, u) == style_lookup(
            before.user_style_map@,
            u,
        )
    &&& style_lookup(after.user_style_map@, user) is Some
}

/// Giving a user a style twice is giving it once: the second time changes
/// nothing.
pub proof fn law_update_twice(s1: UserStyles, s2: UserStyles, s3: UserStyles, user: Seq<char>)
    requires
        updated(s1, s2, user),
        updated(s2, s3, user),
    ensures
        s3 == s2,
{
}

/// Appends fifty styles of random foreground colours.
fn generate_new_styles(styles: &mut Vec<Style>)
    ensures
        final(styles)@.len() == old(styles)@.len() + STYLE_BATCH,
        final(styles)@.take(old(styles)@.len() as int) == old(styles)@,
        forall|k: int|
            old(styles)@.len() <= k < final(styles)@.len() ==> is_colour_style(
                #[trigger] final(styles)@[k],
            ),
{
    let ghost before = styles@;
    let mut i: usize = 0;
    while i < STYLE_BATCH
        invariant
            i <= STYLE_BATCH,
            styles@.len() == before.len() + i,
            styles@.take(before.len() as int) == before,
            forall|k: int|
                before.len() <= k < styles@.len() ==> is_colour_style(#[trigger] styles@[k]),
        decreases STYLE_BATCH - i,
    {
        let (red, green, blue) = random_rgb();
        let ghost prev = styles@;
        styles.push(Style::new().fg(Color::Rgb(red, green, blue)));
        assert(styles@.take(before.len() as int) =~= prev.take(before.len() as int));
        i = i + 1;
    }
}

impl UserStyles {
    /// Each user has one entry, every user so far got the style at their
    /// turn, and the next style is there to hand out.
    pub open spec fn well_formed(&self) -> bool {
        &&& users_unique(self.user_style_map@)
        &&& self.styles_index == self.user_style_map@.len()
        &&& self.styles_index < self.styles@.len()
        &&& forall|k: int|
            0 <= k < self.user_style_map@.len() ==> (#[trigger] self.user_style_map@[k]).1
                == self.styles@[k]
    }

    /// No user yet and fifty random styles to hand out.
    pub fn new() -> (r: UserStyles)
        ensures
            r.well_formed(),
            r.user_style_map@.len() == 0,
            r.styles@.len() == STYLE_BATCH,
            r.styles_index == 0,
    {
        let mut styles: Vec<Style> = Vec::new();
        generate_new_styles(&mut styles);
        UserStyles { user_style_map: Vec::new(), styles, styles_index: 0 }
    }

    /// The style of the user `user_id`, if they have one.
    pub fn get(&self, user_id: &str) -> (r: Option<Style>)
        ensures
            r == style_lookup(self.user_style_map@, user_id@),
    {
        let entries = &self.user_style_map;
        let n = entries.len();
        let mut i: usize = 0;
        assert(entries@.skip(0) =~= entries@);
        while i < n
            invariant
                n == entries@.len(),
                entries@ == self.user_style_map@,
                i <= n,
                style_lookup(entries@.skip(i as int), user_id@) == style_lookup(
                    entries@,
                    user_id@,
                ),
            decreases n - i,
        {
            assert(entries@.skip(i as int)[0] == entries@[i as int]);
            if text_eq(entries[i].0.as_str(), user_id) {
                let found = entries[i].1;
                assert(found == entries@[i as int].1);
                assert(style_lookup(entries@.skip(i as int), user_id@) == Some(found));
                return Some(found);
            }
            assert(entries@.skip(i as int).drop_first() =~= entries@.skip(i + 1));
            i = i + 1;
        }
        None
    }

    /// Gives the user `user_id` the next style, unless they have one; adds
    /// fifty styles when the pool runs out.
    pub fn update(&mut self, user_id: &str)
        requires
            old(self).well_formed(),
        ensures
            final(self).well_formed(),
            updated(*old(self), *final(self), user_id@),
    {
        if self.get(user_id).is_some() {
            return;
        }
        proof {
            lemma_lookup_none_absent(self.user_style_map@, user_id@);
        }
        let pool = self.styles.len();
        assert(self.styles_index < pool);
        let style = self.styles[self.styles_index];
        let ghost old_map = self.user_style_map@;
        self.user_style_map.push((String::from_str(user_id), style));
        self.styles_index = self.styles_index + 1;
        if self.styles_index >= self.styles.len() {
            generate_new_styles(&mut self.styles);
        }
        proof {
            let new_map = self.user_style_map@;
            assert(new_map.drop_last() =~= old_map);
            assert forall|i: int, j: int|
                0 <= i < new_map.len() && 0 <= j < new_map.len() && i != j implies (
                #[trigger] new_map[i]).0@ != (#[trigger] new_map[j]).0@ by {
                if i < old_map.len() && j < old_map.len() {
                    assert(new_map[i] == old_map[i]);
                    assert(new_map[j] == old_map[j]);
                } else if i < old_map.len() {
                    assert(new_map[i] == old_map[i]);
                } else {
                    assert(new_map[j] == old_map[j]);
                }
            }
            assert forall|k: int| 0 <= k < new_map.len() implies (#[trigger] new_map[k]).1
                == self.styles@[k] by {
                if k < old_map.len() {
                    assert(new_map[k] == old_map[k]);
                    assert(self.styles@[k] == self.styles@.take(old(self).styles@.len() as int)[k]);
                }
            }
            assert forall|u: Seq<char>| u != user_id@ implies #[trigger] style_lookup(new_map, u)
                == style_lookup(old_map, u) by {
                lemma_lookup_push(old_map, new_map.last(), u);
            }
            lemma_lookup_push(old_map, new_map.last(), user_id@);
            assert(new_map == old_map.push(new_map.last()));
            assert(style_lookup(old(self).user_style_map@, user_id@) is None);
            assert(self.user_style_map@.len() == old(self).user_style_map@.len() + 1);
            assert(self.user_style_map@.drop_last() == old(self).user_style_map@);
            assert(self.user_style_map@.last().0@ == user_id@);
            assert(self.user_style_map@.last().1 == old(self).styles@[old(self).styles_index as int]);
            assert(self.styles_index == old(self).styles_index + 1);
            assert(self.styles@.take(old(self).styles@.len() as int) == old(self).styles@);
            assert(style_lookup(self.user_style_map@, user_id@) is Some);
        }
    }
}

/// A user whose lookup finds nothing names no entry.
proof fn lemma_lookup_none_absent(entries: Seq<(String, Style)>, user: Seq<char>)
    requires
        style_lookup(entries, user) is None,
    ensures
        forall|k: int| 0 <= k < entries.len() ==> (#[trigger] entries[k]).0@ != user,
    decreases entries.len(),
{
    if entries.len() > 0 {
        lemma_lookup_none_absent(entries.drop_first(), user);
        assert forall|k: int| 0 <= k < entries.len() implies (#[trigger] entries[k]).0@ != user by {
            if k > 0 {
                assert(entries[k] == entries.drop_first()[k - 1]);
            }
        }
    }
}

/// Looking a user up after an entry is appended: the old answer if there
/// was one, else the new entry's style if it names the user.
proof fn lemma_lookup_push(entries: Seq<(String, Style)>, e: (String, Style), user: Seq<char>)
    ensures
        style_lookup(entries.push(e), user) == (match style_lookup(entries, user) {
            Some(s) => Some(s),
            None => if e.0@ == user {
                Some(e.1)
            } else {
                None
            },
        }),
    decreases entries.len(),
{
    let pushed = entries.push(e);
    if entries.len() > 0 {
        assert(pushed[0] == entries[0]);
        assert(pushed.drop_first() =~= entries.drop_first().push(e));
        lemma_lookup_push(entries.drop_first(), e, user);
        if entries[0].0@ == user {
            assert(style_lookup(pushed, user) == Some(entries[0].1));
        } else {
            assert(style_lookup(pushed, user) == style_lookup(pushed.drop_first(), user));
            assert(style_lookup(entries, user) == style_lookup(entries.drop_first(), user));
        }
    } else {
        assert(pushed[0] == e);
        assert(pushed.drop_first() =~= Seq::<(String, Style)>::empty());
        assert(style_lookup(entries, user) is None);
        if e.0@ != user {
            assert(style_lookup(pushed, user) == style_lookup(pushed.drop_first(), user));
        }
    }
}

} // verus!

//! Draw commands: the ordered, append-only output of a frame, plus the
//! class-tag mechanism that lets callers attach style hints to commands.

use vstd::prelude::*;
use vstd::string::StringSliceAdditionalSpecFns;
use crate::flags::Flags;
use crate::geometry::Rect;

verus! {

/// What a draw command is for; a renderer maps roles to styles.
#[derive(Debug, Clone, Copy, PartialEq, Eq, Hash, Structural)]
pub enum UIDrawRole {
    Text,
    ButtonText,
    ButtonBackground,
    SliderRect,
    SliderKnob,
    CheckboxBox,
    CheckboxCheck,
    LayoutBackground,
}

/// A text scale factor in thousandths, so that the core stays in exact
/// integer arithmetic. `1000` is unscaled. The core never computes with a
/// scale; it hands it to the text-metrics provider and stamps it onto text
/// commands for the renderer.
#[derive(Debug, Clone, Copy, PartialEq, Eq, Hash, Structural)]
pub struct TextScale {
    pub thousandths: u32,
}

impl TextScale {
    /// The neutral scale.
    pub fn one() -> (s: Self)
        ensures
            s == (TextScale { thousandths: 1000 }),
    {
        TextScale { thousandths: 1000 }
    }
}

/// A byte that separates classes in a class list: ASCII space, tab, line
/// feed, form feed or carriage return.
pub open spec fn is_class_sep(b: u8) -> bool {
    b == 32 || b == 9 || b == 10 || b == 12 || b == 13
}

/// `tag` occurs in `s` at `start` as a whole separator-delimited word.
pub open spec fn class_token_at(s: Seq<u8>, tag: Seq<u8>, start: int) -> bool {
    &&& 0 <= start
    &&& start + tag.len() <= s.len()
    &&& tag.len() > 0
    &&& (forall|i: int| 0 <= i < tag.len() ==> !is_class_sep(tag[i]))
    &&& s.subrange(start, start + tag.len()) == tag
    &&& (start == 0 || is_class_sep(s[start - 1]))
    &&& (start + tag.len() == s.len() || is_class_sep(s[start + tag.len()]))
}

/// `tag` is one of the separator-delimited words of `s`.
pub open spec fn classes_contain(s: Seq<u8>, tag: Seq<u8>) -> bool {
    exists|start: int| class_token_at(s, tag, start)
}

/// A space-separated list of classes/tags attached to draw commands for
/// renderer-side styling (e.g. "cool-btn text-red"). Purely a style hint:
/// layout and interaction logic never read it.
#[derive(Debug, Clone, Copy)]
pub struct ClassList {
    pub classes: &'static str,
}

impl ClassList {
    pub fn new(tags: &'static str) -> (c: Self)
        ensures
            c.classes == tags,
    {
        Self { classes: tags }
    }

    /// Whether this list contains `tag` as a whole separator-delimited word.
    pub fn has(&self, tag: &'static str) -> (b: bool)
        ensures
            b == classes_contain(self.classes.spec_bytes(), tag.spec_bytes()),
    {
        let s: &[u8] = self.classes.as_bytes();
        let t: &[u8] = tag.as_bytes();
        proof {
            assert(s@ == self.classes.spec_bytes());
            assert(t@ == tag.spec_bytes());
        }
        if t.len() == 0 || t.len() > s.len() {
            proof {
                assert forall|st: int| !class_token_at(s@, t@, st) by {
                }
            }
            return false;
        }
        let mut i: usize = 0;
        while i < t.len()
            invariant
                s@ == self.classes.spec_bytes(),
                t@ == tag.spec_bytes(),
                i <= t@.len(),
                forall|j: int| 0 <= j < i ==> !is_class_sep(t@[j]),
            decreases t@.len() - i,
        {
            if is_sep_byte(t[i]) {
                proof {
                    assert forall|st: int| !class_token_at(s@, t@, st) by {
                        if class_token_at(s@, t@, st) {
                            assert(!is_class_sep(t@[i as int]));
                        }
                    }
                    assert(!classes_contain(s@, t@));
                }
                return false;
            }
            i += 1;
        }
        let last = s.len() - t.len();
        let mut start: usize = 0;
        while start <= last
            invariant
                s@ == self.classes.spec_bytes(),
                t@ == tag.spec_bytes(),
                s@.len() <= usize::MAX,
                t@.len() > 0,
                t@.len() <= s@.len(),
                last == s@.len() - t@.len(),
                start <= last + 1,
                forall|j: int| 0 <= j < t@.len() ==> !is_class_sep(t@[j]),
                forall|st: int| 0 <= st < start ==> !class_token_at(s@, t@, st),
            decreases last + 1 - start,
        {
            let left_ok = start == 0 || is_sep_byte(s[start - 1]);
            let end = start + t.len();
            let right_ok = end == s.len() || is_sep_byte(s[end]);
            if left_ok && right_ok && bytes_match_at(s, t, start) {
                proof {
                    assert(class_token_at(s@, t@, start as int));
                    assert(classes_contain(s@, t@));
                }
                return true;
            }
            proof {
                assert(!class_token_at(s@, t@, start as int));
            }
            start += 1;
        }
        proof {
            assert forall|st: int| !class_token_at(s@, t@, st) by {
                if class_token_at(s@, t@, st) {
                    assert(st + t@.len() <= s@.len());
                    assert(st < start);
                }
            }
            assert(!classes_contain(s@, t@));
        }
        false
    }
}

/// Whether `b` separates classes in a class list.
fn is_sep_byte(b: u8) -> (r: bool)
    ensures
        r == is_class_sep(b),
{
    b == 32 || b == 9 || b == 10 || b == 12 || b == 13
}

/// Whether `t` occurs byte-for-byte in `s` at position `start`.
fn bytes_match_at(s: &[u8], t: &[u8], start: usize) -> (b: bool)
    requires
        start + t@.len() <= s@.len(),
        s@.len() <= usize::MAX,
    ensures
        b == (s@.subrange(start as int, start as int + t@.len()) == t@),
{
    let mut j: usize = 0;
    while j < t.len()
        invariant
            start + t@.len() <= s@.len(),
            s@.len() <= usize::MAX,
            j <= t@.len(),
            forall|k: int| 0 <= k < j ==> s@[start + k] == t@[k],
        decreases t@.len() - j,
    {
        if s[start + j] != t[j] {
            proof {
                assert(s@.subrange(start as int, start as int + t@.len())[j as int] != t@[j as int]);
            }
            return false;
        }
        j += 1;
    }
    proof {
        assert(s@.subrange(start as int, start as int + t@.len()) =~= t@);
    }
    true
}

impl PartialEq for ClassList {
    /// Two class lists are equal when they hold the same bytes.
    fn eq(&self, other: &Self) -> (r: bool) {
        let a: &[u8] = self.classes.as_bytes();
        let b: &[u8] = other.classes.as_bytes();
        proof {
            assert(a@ == self.classes.spec_bytes());
            assert(b@ == other.classes.spec_bytes());
        }
        if a.len() != b.len() {
            proof {
                assert(a@.len() != b@.len());
            }
            return false;
        }
        let r = bytes_match_at(a, b, 0);
        proof {
            assert(a@.subrange(0, b@.len() as int) =~= a@);
        }
        r
    }
}

impl vstd::std_specs::cmp::PartialEqSpecImpl for ClassList {
    open spec fn obeys_eq_spec() -> bool {
        true
    }

    open spec fn eq_spec(&self, other: &ClassList) -> bool {
        self.classes.spec_bytes() == other.classes.spec_bytes()
    }
}

/// The fields every draw command carries: where to draw, the widget's
/// interaction flags, what the command is for, and the ambient class tag
/// at emission time.
#[derive(Debug, Clone, Copy)]
pub struct DrawData {
    pub rect: Rect,
    pub flags: Flags,
    pub role: UIDrawRole,
    pub class_list: Option<ClassList>,
}

/// One primitive drawing operation, consumed in emission order by an
/// external renderer. Commands are never mutated after emission, with one
/// exception: a layout's background rectangle is emitted with a placeholder
/// size and patched in place once the layout's final size is known.
#[derive(Debug, Clone)]
pub enum DrawCommand {
    DrawText { content: String, text_scale: TextScale, draw_data: DrawData },
    DrawRect { draw_data: DrawData },
}

/// The rectangle command emitted with the given fields.
pub open spec fn rect_command(rect: Rect, flags: Flags, role: UIDrawRole, class: Option<ClassList>) -> DrawCommand {
    DrawCommand::DrawRect {
        draw_data: DrawData { rect, flags, role, class_list: class },
    }
}

/// The text command emitted with the given fields.
pub open spec fn text_command(
    content: String,
    rect: Rect,
    flags: Flags,
    role: UIDrawRole,
    scale: TextScale,
    class: Option<ClassList>,
) -> DrawCommand {
    DrawCommand::DrawText {
        content,
        text_scale: scale,
        draw_data: DrawData { rect, flags, role, class_list: class },
    }
}

} // verus!

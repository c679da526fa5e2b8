//! The window a border is drawn in: how it announces that its window took focus.

use vstd::prelude::*;
use vstd::string::StringExecFns;

use crate::text;

verus! {

/// How the border announces that its window has taken focus.
#[derive(Clone, Copy, Debug, PartialEq, Eq, Structural)]
pub enum FlashStyle {
    /// Flares wide and settles back.
    Width,
    /// No animation.
    Still,
}

impl Default for FlashStyle {
    fn default() -> (style: Self)
        ensures
            style == FlashStyle::Width,
    {
        FlashStyle::Width
    }
}

/// A text in lower case, as the standard library puts it.
pub uninterp spec fn lowercase(text: Seq<char>) -> Seq<char>;

/// A text in lower case, by `str::to_lowercase`.
///
/// The result depends on the text alone, and [`lowercase`] is its name. Which letters change
/// is decided by Unicode and not spelled out here.
#[verifier::external_body]
fn to_lowercase(text: &str) -> (lower: String)
    ensures
        lower@ == lowercase(text@),
{
    text.to_lowercase()
}

/// The style that a name in lower case stands for, or why it stands for none.
pub open spec fn style_named(name: Seq<char>) -> Result<FlashStyle, Seq<char>> {
    if name == "width"@ {
        Ok(FlashStyle::Width)
    } else if name == "none"@ {
        Ok(FlashStyle::Still)
    } else {
        Err("unknown flash style: "@ + name)
    }
}

impl FlashStyle {
    /// The style that a name stands for, in any mixture of cases.
    pub fn from_str(name: &str) -> (style: Result<FlashStyle, String>)
        ensures
            match style {
                Ok(style) => style_named(lowercase(name@)) == Ok::<FlashStyle, Seq<char>>(style),
                Err(why) => style_named(lowercase(name@)) == Err::<FlashStyle, Seq<char>>(why@),
            },
    {
        let lower = to_lowercase(name);
        FlashStyle::from_lowercase(lower.as_str())
    }

    /// The style that a name in lower case stands for.
    pub fn from_lowercase(name: &str) -> (style: Result<FlashStyle, String>)
        ensures
            match style {
                Ok(style) => style_named(name@) == Ok::<FlashStyle, Seq<char>>(style),
                Err(why) => style_named(name@) == Err::<FlashStyle, Seq<char>>(why@),
            },
    {
        if text::same_text(name, "width") {
            Ok(FlashStyle::Width)
        } else if text::same_text(name, "none") {
            Ok(FlashStyle::Still)
        } else {
            let mut why = "unknown flash style: ".to_owned();
            why.append(name);
            Err(why)
        }
    }
}

/// The two styles go by two different names, and every other name is refused.
pub proof fn law_every_flash_style_has_a_name(name: Seq<char>)
    ensures
        style_named("width"@) == Ok::<FlashStyle, Seq<char>>(FlashStyle::Width),
        style_named("none"@) == Ok::<FlashStyle, Seq<char>>(FlashStyle::Still),
        style_named(name) is Ok <==> name == "width"@ || name == "none"@,
{
    reveal_strlit("width");
    reveal_strlit("none");
    assert("width"@.len() != "none"@.len());
}

/// How the flash moves.
pub struct Flash {
    /// How far the border flares, as a multiple of its settled width, times ten.
    pub factor_x10: i32,
    /// How long the flash lasts, in milliseconds.
    pub duration_ms: i32,
    /// Which timing curve the flash follows, by name; the default where it is empty.
    pub easing: String,
    pub style: FlashStyle,
}

/// The value of a [`Flash`].
pub struct FlashView {
    pub factor_x10: i32,
    pub duration_ms: i32,
    pub easing: Seq<char>,
    pub style: FlashStyle,
}

impl View for Flash {
    type V = FlashView;

    open spec fn view(&self) -> FlashView {
        FlashView {
            factor_x10: self.factor_x10,
            duration_ms: self.duration_ms,
            easing: self.easing@,
            style: self.style,
        }
    }
}

impl Default for Flash {
    fn default() -> (flash: Self)
        ensures
            flash@ == (FlashView {
                factor_x10: 35,
                duration_ms: 220,
                easing: Seq::empty(),
                style: FlashStyle::Width,
            }),
    {
        let flash = Flash {
            factor_x10: 35,
            duration_ms: 220,
            easing: String::new(),
            style: FlashStyle::Width,
        };
        assert(flash.easing@ =~= Seq::empty());
        flash
    }
}

/// The timing curve that a name stands for.
pub open spec fn easing_curve(name: Seq<char>) -> Seq<char> {
    if name.len() == 0 {
        "easeOut"@
    } else {
        name
    }
}

/// Sets the timing curve by name: easeOut (default), easeIn, easeInEaseOut, linear.
pub fn set_flash_easing(flash: &mut Flash, name: &str)
    ensures
        final(flash)@ == (FlashView { easing: name@, ..old(flash)@ }),
{
    flash.easing = name.to_owned();
}

/// The timing curve in force.
pub fn flash_easing(flash: &Flash) -> (curve: String)
    ensures
        curve@ == easing_curve(flash@.easing),
{
    if flash.easing.as_str().is_empty() {
        "easeOut".to_owned()
    } else {
        flash.easing.clone()
    }
}

/// One flash to be played: the width it starts from, times ten, and the width it settles at.
#[derive(Clone, Copy, Debug, PartialEq, Eq, Structural)]
pub struct FlashRun {
    pub from_width_x10: i64,
    pub settled_width: i32,
    pub duration_ms: i32,
}

/// The flash that a border of some width plays when it comes up: none where it was showing
/// already or the style is to keep still.
pub open spec fn flash_played(flash: FlashView, settled_width: i32, appeared: bool) -> Option<
    FlashRun,
> {
    if appeared && flash.style == FlashStyle::Width {
        Some(
            FlashRun {
                from_width_x10: (settled_width * flash.factor_x10) as i64,
                settled_width,
                duration_ms: flash.duration_ms,
            },
        )
    } else {
        None
    }
}

impl Flash {
    /// The flash that a border plays when it comes up.
    pub fn played(&self, settled_width: i32, appeared: bool) -> (run: Option<FlashRun>)
        ensures
            run == flash_played(self@, settled_width, appeared),
    {
        if !appeared {
            return None;
        }
        match self.style {
            FlashStyle::Still => None,
            FlashStyle::Width => {
                assert(-0x8000_0000 * 0x8000_0000 <= settled_width * self.factor_x10
                    <= 0x8000_0000 * 0x8000_0000) by (nonlinear_arith)
                    requires
                        -0x8000_0000 <= settled_width <= 0x7fff_ffff,
                        -0x8000_0000 <= self.factor_x10 <= 0x7fff_ffff,
                ;
                Some(
                    FlashRun {
                        from_width_x10: settled_width as i64 * self.factor_x10 as i64,
                        settled_width,
                        duration_ms: self.duration_ms,
                    },
                )
            },
        }
    }
}


/// A border that comes up plays a flash from a multiple of its width down to its width, if that is the
/// style; one that was there already or that keeps still plays none.
pub proof fn law_only_new_borders_flash(flash: FlashView, settled_width: i32, appeared: bool)
    ensures
        ({
            let played = flash_played(flash, settled_width, appeared);
            &&& played is Some <==> appeared && flash.style == FlashStyle::Width
            &&& played matches Some(run) ==> {
                &&& run.settled_width == settled_width
                &&& run.duration_ms == flash.duration_ms
                &&& run.from_width_x10 == (settled_width * flash.factor_x10) as i64
            }
        }),
{
}

/// A curve goes by the name it is given, and the one that slows down at its end is meant where none is.
pub proof fn law_a_curve_goes_by_its_name(name: Seq<char>)
    ensures
        name.len() > 0 ==> easing_curve(name) == name,
        name.len() == 0 ==> easing_curve(name) == "easeOut"@,
{
}

} // verus!

//! Animations and the easing curves they follow.

use crate::document::{Json, Value};
use crate::record::{distinct_keys, emit, is_lower_camel, lemma_field_omission, Field, Record};
use crate::writer::ObjectWriter;
use vstd::prelude::*;

verus! {

/// The easing curves that the rendering engine offers.
#[derive(Clone, Copy, Debug, PartialEq, Eq, Structural)]
pub enum Easing {
    Linear,
    QuadraticIn,
    QuadraticOut,
    QuadraticInOut,
    CubicIn,
    CubicOut,
    CubicInOut,
    QuarticIn,
    QuarticOut,
    QuarticInOut,
    QuinticIn,
    QuinticOut,
    QuinticInOut,
    SinusoidalIn,
    SinusoidalOut,
    SinusoidalInOut,
    ExponentialIn,
    ExponentialOut,
    ExponentialInOut,
    CircularIn,
    CircularOut,
    CircularInOut,
    ElasticIn,
    ElasticOut,
    ElasticInOut,
    BackIn,
    BackOut,
    BackInOut,
    BounceIn,
    BounceOut,
    BounceInOut,
}

/// What tells two curve names apart: the length and the first four
/// characters.
spec fn name_mark(name: Seq<char>) -> (nat, char, char, char, char) {
    (name.len(), name[0], name[1], name[2], name[3])
}

impl Easing {
    /// The curve's name in a document: the variant's name in lower camel
    /// case.
    pub open spec fn name(self) -> Seq<char> {
        match self {
            Easing::Linear => "linear"@,
            Easing::QuadraticIn => "quadraticIn"@,
            Easing::QuadraticOut => "quadraticOut"@,
            Easing::QuadraticInOut => "quadraticInOut"@,
            Easing::CubicIn => "cubicIn"@,
            Easing::CubicOut => "cubicOut"@,
            Easing::CubicInOut => "cubicInOut"@,
            Easing::QuarticIn => "quarticIn"@,
            Easing::QuarticOut => "quarticOut"@,
            Easing::QuarticInOut => "quarticInOut"@,
            Easing::QuinticIn => "quinticIn"@,
            Easing::QuinticOut => "quinticOut"@,
            Easing::QuinticInOut => "quinticInOut"@,
            Easing::SinusoidalIn => "sinusoidalIn"@,
            Easing::SinusoidalOut => "sinusoidalOut"@,
            Easing::SinusoidalInOut => "sinusoidalInOut"@,
            Easing::ExponentialIn => "exponentialIn"@,
            Easing::ExponentialOut => "exponentialOut"@,
            Easing::ExponentialInOut => "exponentialInOut"@,
            Easing::CircularIn => "circularIn"@,
            Easing::CircularOut => "circularOut"@,
            Easing::CircularInOut => "circularInOut"@,
            Easing::ElasticIn => "elasticIn"@,
            Easing::ElasticOut => "elasticOut"@,
            Easing::ElasticInOut => "elasticInOut"@,
            Easing::BackIn => "backIn"@,
            Easing::BackOut => "backOut"@,
            Easing::BackInOut => "backInOut"@,
            Easing::BounceIn => "bounceIn"@,
            Easing::BounceOut => "bounceOut"@,
            Easing::BounceInOut => "bounceInOut"@,
        }
    }

    /// The curve's name in a document.
    pub fn as_str(&self) -> (name: &'static str)
        ensures
            name@ == self.name(),
    {
        match self {
            Easing::Linear => "linear",
            Easing::QuadraticIn => "quadraticIn",
            Easing::QuadraticOut => "quadraticOut",
            Easing::QuadraticInOut => "quadraticInOut",
            Easing::CubicIn => "cubicIn",
            Easing::CubicOut => "cubicOut",
            Easing::CubicInOut => "cubicInOut",
            Easing::QuarticIn => "quarticIn",
            Easing::QuarticOut => "quarticOut",
            Easing::QuarticInOut => "quarticInOut",
            Easing::QuinticIn => "quinticIn",
            Easing::QuinticOut => "quinticOut",
            Easing::QuinticInOut => "quinticInOut",
            Easing::SinusoidalIn => "sinusoidalIn",
            Easing::SinusoidalOut => "sinusoidalOut",
            Easing::SinusoidalInOut => "sinusoidalInOut",
            Easing::ExponentialIn => "exponentialIn",
            Easing::ExponentialOut => "exponentialOut",
            Easing::ExponentialInOut => "exponentialInOut",
            Easing::CircularIn => "circularIn",
            Easing::CircularOut => "circularOut",
            Easing::CircularInOut => "circularInOut",
            Easing::ElasticIn => "elasticIn",
            Easing::ElasticOut => "elasticOut",
            Easing::ElasticInOut => "elasticInOut",
            Easing::BackIn => "backIn",
            Easing::BackOut => "backOut",
            Easing::BackInOut => "backInOut",
            Easing::BounceIn => "bounceIn",
            Easing::BounceOut => "bounceOut",
            Easing::BounceInOut => "bounceInOut",
        }
    }

    /// A curve is written as its name.
    pub fn document(&self) -> (doc: Value)
        ensures
            doc@ == Json::Str(self.name()),
    {
        Value::Str(self.as_str().to_owned())
    }

    /// Every curve's name is in lower camel case, and no two curves share a
    /// name: curves with the same name are the same curve.
    pub proof fn lemma_names(self, other: Easing)
        ensures
            is_lower_camel(self.name()),
            (self.name() == other.name()) == (self == other),
    {
        reveal_strlit("linear");
        reveal_strlit("quadraticIn");
        reveal_strlit("quadraticOut");
        reveal_strlit("quadraticInOut");
        reveal_strlit("cubicIn");
        reveal_strlit("cubicOut");
        reveal_strlit("cubicInOut");
        reveal_strlit("quarticIn");
        reveal_strlit("quarticOut");
        reveal_strlit("quarticInOut");
        reveal_strlit("quinticIn");
        reveal_strlit("quinticOut");
        reveal_strlit("quinticInOut");
        reveal_strlit("sinusoidalIn");
        reveal_strlit("sinusoidalOut");
        reveal_strlit("sinusoidalInOut");
        reveal_strlit("exponentialIn");
        reveal_strlit("exponentialOut");
        reveal_strlit("exponentialInOut");
        reveal_strlit("circularIn");
        reveal_strlit("circularOut");
        reveal_strlit("circularInOut");
        reveal_strlit("elasticIn");
        reveal_strlit("elasticOut");
        reveal_strlit("elasticInOut");
        reveal_strlit("backIn");
        reveal_strlit("backOut");
        reveal_strlit("backInOut");
        reveal_strlit("bounceIn");
        reveal_strlit("bounceOut");
        reveal_strlit("bounceInOut");
        if self.name() == other.name() {
            assert(name_mark(self.name()) == name_mark(other.name()));
        }
    }
}

impl Default for Easing {
    /// The first curve, `linear`.
    fn default() -> (r: Self)
        ensures
            r == Easing::Linear,
    {
        Easing::Linear
    }
}

/// How long a transition takes and which curve it follows.
#[derive(Clone, Copy, Debug, PartialEq, Eq, Structural)]
pub struct Animation {
    /// The duration, in the engine's unit.
    pub duration: u32,
    /// The easing curve.
    pub easing: Option<Easing>,
}

/// The document of an optional curve, if there is one.
pub open spec fn json_easing(value: Option<Easing>) -> Option<Json> {
    match value {
        Some(easing) => Some(Json::Str(easing.name())),
        None => None,
    }
}

impl Default for Animation {
    /// A duration of 100 along the `linear` curve.
    fn default() -> (r: Self)
        ensures
            r == (Animation { duration: 100, easing: Some(Easing::Linear) }),
    {
        Animation { duration: 100, easing: Some(Easing::Linear) }
    }
}

impl Animation {
    /// An animation of the given duration along the given curve; without a
    /// curve it follows `linear`, so the curve is never left unset.
    pub fn new(duration: u32, easing: Option<Easing>) -> (r: Self)
        ensures
            r.duration == duration,
            r.easing == Some(
                match easing {
                    Some(curve) => curve,
                    None => Easing::Linear,
                },
            ),
    {
        let easing = match easing {
            Some(curve) => curve,
            None => Easing::Linear,
        };
        Animation { duration, easing: Some(easing) }
    }
}

/// An animation that has a curve shows it: its document holds the duration
/// under `duration` and the curve's name under `easing`. So does every
/// animation made by [`Animation::new`] or by default, with or without a curve
/// given.
pub proof fn lemma_curve_is_written(animation: Animation)
    requires
        animation.easing is Some,
    ensures
        Json::Object(emit(animation.fields())).get("duration"@) == Some(
            Json::UInt(animation.duration as u64),
        ),
        Json::Object(emit(animation.fields())).get("easing"@) == Some(
            Json::Str(animation.easing->0.name()),
        ),
{
    animation.lemma_keys(&animation);
    lemma_field_omission(animation.fields(), 0);
    lemma_field_omission(animation.fields(), 1);
}

impl Record for Animation {
    open spec fn fields(&self) -> Seq<Field> {
        seq![
            Field { key: "duration"@, value: Some(Json::UInt(self.duration as u64)) },
            Field { key: "easing"@, value: json_easing(self.easing) },
        ]
    }

    proof fn lemma_keys(&self, other: &Self) {
        reveal_strlit("duration");
        reveal_strlit("easing");
        assert(is_lower_camel("duration"@));
        assert(is_lower_camel("easing"@));
        assert(distinct_keys(self.fields()));
    }

    fn document(&self) -> (doc: Value) {
        let mut w = ObjectWriter::new();
        w.field("duration", Some(Value::UInt(self.duration as u64)));
        let easing = match self.easing {
            Some(curve) => Some(curve.document()),
            None => None,
        };
        w.field("easing", easing);
        assert(w.fields() =~= self.fields());
        w.finish()
    }
}

} // verus!

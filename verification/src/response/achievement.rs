//! The reply to a request for the achievement percentages of an application.

use vstd::prelude::*;
use crate::decode::{
    decode_number, decode_text, failure, field_path, gather, get_optional, get_required,
    index_path, join_field, join_index, lemma_gather_error, lemma_gather_values, number_field,
    optional_field, outcome, required_field, text_field, value_error,
};
use crate::error::{DecodeError, DecodeErrorKind, DecodeErrorView};
use crate::json::{Json, Number};

verus! {

/// The whole reply: an envelope that holds the percentages, or nothing where
/// the application defines no achievements.
#[derive(Clone, Debug, PartialEq, Eq)]
pub struct Achievement {
    pub achievementpercentages: Option<AchievementPercentages>,
}

/// The achievements of one application.
#[derive(Clone, Debug, PartialEq, Eq)]
pub struct AchievementPercentages {
    pub achievements: Vec<AchievementData>,
}

/// One achievement, and how many of the players have unlocked it.
#[derive(Clone, Debug, PartialEq, Eq)]
pub struct AchievementData {
    pub name: String,
    /// The share of players, in percent, as the number that the service sent.
    pub percent: Number,
}

/// An [`AchievementData`] as a mathematical value.
pub struct AchievementDataView {
    pub name: Seq<char>,
    pub percent: Number,
}

/// An [`AchievementPercentages`] as a mathematical value.
pub struct AchievementPercentagesView {
    pub achievements: Seq<AchievementDataView>,
}

/// An [`Achievement`] as a mathematical value.
pub struct AchievementView {
    pub achievementpercentages: Option<AchievementPercentagesView>,
}

impl DeepView for AchievementData {
    type V = AchievementDataView;

    open spec fn deep_view(&self) -> AchievementDataView {
        AchievementDataView { name: self.name@, percent: self.percent }
    }
}

impl DeepView for AchievementPercentages {
    type V = AchievementPercentagesView;

    open spec fn deep_view(&self) -> AchievementPercentagesView {
        AchievementPercentagesView { achievements: self.achievements.deep_view() }
    }
}

impl DeepView for Achievement {
    type V = AchievementView;

    open spec fn deep_view(&self) -> AchievementView {
        AchievementView { achievementpercentages: self.achievementpercentages.deep_view() }
    }
}

/// The achievement that the JSON value at `path` describes.
pub open spec fn achievement_data_of(value: Json, path: Seq<char>) -> Result<
    AchievementDataView,
    DecodeErrorView,
> {
    match value {
        Json::Object(members) => {
            let name = text_field(members@, "name"@, path);
            let percent = number_field(members@, "percent"@, path);
            if name is Err {
                Err(name->Err_0)
            } else if percent is Err {
                Err(percent->Err_0)
            } else {
                Ok(AchievementDataView { name: name->Ok_0, percent: percent->Ok_0 })
            }
        },
        _ => Err(failure(path, DecodeErrorKind::WrongType)),
    }
}

/// The outcomes of decoding each element of a list as an achievement.
pub open spec fn achievement_outcomes(items: Seq<Json>, path: Seq<char>) -> Seq<
    Result<AchievementDataView, DecodeErrorView>,
> {
    Seq::new(items.len(), |k: int| achievement_data_of(items[k], index_path(path, k as nat)))
}

/// The achievements that the JSON list at `path` describes, in its order.
pub open spec fn achievements_of(value: Json, path: Seq<char>) -> Result<
    Seq<AchievementDataView>,
    DecodeErrorView,
> {
    match value {
        Json::List(items) => gather(achievement_outcomes(items@, path)),
        _ => Err(failure(path, DecodeErrorKind::WrongType)),
    }
}

/// The achievements of an application that the JSON value at `path` describes.
pub open spec fn achievement_percentages_of(value: Json, path: Seq<char>) -> Result<
    AchievementPercentagesView,
    DecodeErrorView,
> {
    match value {
        Json::Object(members) => match required_field(members@, "achievements"@, path) {
            Ok(list) => match achievements_of(list, field_path(path, "achievements"@)) {
                Ok(achievements) => Ok(AchievementPercentagesView { achievements }),
                Err(e) => Err(e),
            },
            Err(e) => Err(e),
        },
        _ => Err(failure(path, DecodeErrorKind::WrongType)),
    }
}

/// The reply that the JSON value at `path` describes. The field
/// `achievementpercentages` may be left out, or be `null`.
pub open spec fn achievement_of(value: Json, path: Seq<char>) -> Result<
    AchievementView,
    DecodeErrorView,
> {
    match value {
        Json::Object(members) => match optional_field(members@, "achievementpercentages"@, path) {
            Ok(Some(inner)) => match achievement_percentages_of(
                inner,
                field_path(path, "achievementpercentages"@),
            ) {
                Ok(percentages) => Ok(AchievementView { achievementpercentages: Some(percentages) }),
                Err(e) => Err(e),
            },
            Ok(None) => Ok(AchievementView { achievementpercentages: None }),
            Err(e) => Err(e),
        },
        _ => Err(failure(path, DecodeErrorKind::WrongType)),
    }
}

impl AchievementData {
    /// Decodes the achievement that stands at `path` in a reply.
    pub fn decode(value: &Json, path: &str) -> (r: Result<AchievementData, DecodeError>)
        ensures
            outcome(r) == achievement_data_of(*value, path@),
    {
        match value {
            Json::Object(members) => {
                let name: String = decode_text(members, "name", path)?;
                let percent: Number = decode_number(members, "percent", path)?;
                Ok(AchievementData { name, percent })
            },
            _ => Err(value_error(path, DecodeErrorKind::WrongType)),
        }
    }
}

/// Decodes the list of achievements that stands at `path` in a reply.
pub fn decode_achievements(value: &Json, path: &str) -> (r: Result<
    Vec<AchievementData>,
    DecodeError,
>)
    ensures
        outcome(r) == achievements_of(*value, path@),
{
    match value {
        Json::List(items) => {
            let ghost outcomes = achievement_outcomes(items@, path@);
            let mut list: Vec<AchievementData> = Vec::new();
            let mut k: usize = 0;
            while k < items.len()
                invariant
                    k <= items.len(),
                    outcomes == achievement_outcomes(items@, path@),
                    achievements_of(*value, path@) == gather(outcomes),
                    list.len() == k,
                    forall|j: int|
                        0 <= j < k ==> #[trigger] outcomes[j] == Ok::<
                            AchievementDataView,
                            DecodeErrorView,
                        >(list[j].deep_view()),
                decreases items.len() - k,
            {
                let at: String = join_index(path, k);
                match AchievementData::decode(&items[k], at.as_str()) {
                    Ok(item) => {
                        list.push(item);
                    },
                    Err(e) => {
                        proof {
                            assert(outcomes[k as int] == Err::<AchievementDataView, DecodeErrorView>(
                                e.deep_view(),
                            ));
                            lemma_gather_error(outcomes, k as int);
                        }
                        return Err(e);
                    },
                }
                k = k + 1;
            }
            proof {
                lemma_gather_values(outcomes, list.deep_view());
            }
            Ok(list)
        },
        _ => Err(value_error(path, DecodeErrorKind::WrongType)),
    }
}

impl AchievementPercentages {
    /// Decodes the achievements of an application that stand at `path` in a
    /// reply.
    pub fn decode(value: &Json, path: &str) -> (r: Result<AchievementPercentages, DecodeError>)
        ensures
            outcome(r) == achievement_percentages_of(*value, path@),
    {
        match value {
            Json::Object(members) => {
                let list: &Json = get_required(members, "achievements", path)?;
                let at: String = join_field(path, "achievements");
                let achievements: Vec<AchievementData> = decode_achievements(list, at.as_str())?;
                Ok(AchievementPercentages { achievements })
            },
            _ => Err(value_error(path, DecodeErrorKind::WrongType)),
        }
    }
}

impl Achievement {
    /// Decodes the reply that stands at `path`; the body of a reply as a
    /// whole stands at the empty path.
    pub fn decode(value: &Json, path: &str) -> (r: Result<Achievement, DecodeError>)
        ensures
            outcome(r) == achievement_of(*value, path@),
    {
        match value {
            Json::Object(members) => {
                match get_optional(members, "achievementpercentages", path)? {
                    Some(inner) => {
                        let at: String = join_field(path, "achievementpercentages");
                        let percentages: AchievementPercentages = AchievementPercentages::decode(
                            inner,
                            at.as_str(),
                        )?;
                        Ok(Achievement { achievementpercentages: Some(percentages) })
                    },
                    None => Ok(Achievement { achievementpercentages: None }),
                }
            },
            _ => Err(value_error(path, DecodeErrorKind::WrongType)),
        }
    }
}

} // verus!

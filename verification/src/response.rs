//! The shapes of the replies, and how each is decoded from JSON.

pub mod achievement;
pub mod news;

pub use achievement::{Achievement, AchievementData, AchievementPercentages};
pub use news::{AppNews, News, NewsItem};

//! The reply to a request for the news of an application.

use vstd::prelude::*;
use crate::decode::{
    boolean_field, decode_boolean, decode_i16, decode_i32, decode_optional_text_list, decode_text,
    failure, field_path, gather, get_required, i16_field, i32_field, index_path, join_field,
    join_index, lemma_gather_error, lemma_gather_values, optional_text_list_field, outcome,
    required_field, text_field, value_error,
};
use crate::error::{DecodeError, DecodeErrorKind, DecodeErrorView};
use crate::json::{lookup, Json, Lookup, Member};

verus! {

/// The whole reply: an envelope around the news of one application.
#[derive(Clone, Debug, PartialEq, Eq)]
pub struct News {
    pub appnews: AppNews,
}

/// The news of one application.
#[derive(Clone, Debug, PartialEq, Eq)]
pub struct AppNews {
    /// The application that the news belong to.
    pub appid: i32,
    /// The news items, in the order in which the service ranked them.
    pub newsitems: Vec<NewsItem>,
    /// The number of items that the service says it has.
    pub count: i32,
}

/// One news post.
#[derive(Clone, Debug, PartialEq, Eq)]
pub struct NewsItem {
    pub gid: String,
    pub title: String,
    pub url: String,
    pub is_external_url: bool,
    pub author: String,
    pub contents: String,
    pub feedlabel: String,
    /// When the post was published, in seconds since the Unix epoch.
    pub date: i32,
    pub feedname: String,
    pub feed_type: i16,
    pub appid: i32,
    /// The post's tags; `None` where the service sent none.
    pub tags: Option<Vec<String>>,
}

/// A [`NewsItem`] as a mathematical value.
pub struct NewsItemView {
    pub gid: Seq<char>,
    pub title: Seq<char>,
    pub url: Seq<char>,
    pub is_external_url: bool,
    pub author: Seq<char>,
    pub contents: Seq<char>,
    pub feedlabel: Seq<char>,
    pub date: i32,
    pub feedname: Seq<char>,
    pub feed_type: i16,
    pub appid: i32,
    pub tags: Option<Seq<Seq<char>>>,
}

/// An [`AppNews`] as a mathematical value.
pub struct AppNewsView {
    pub appid: i32,
    pub newsitems: Seq<NewsItemView>,
    pub count: i32,
}

/// A [`News`] as a mathematical value.
pub struct NewsView {
    pub appnews: AppNewsView,
}

impl DeepView for NewsItem {
    type V = NewsItemView;

    open spec fn deep_view(&self) -> NewsItemView {
        NewsItemView {
            gid: self.gid@,
            title: self.title@,
            url: self.url@,
            is_external_url: self.is_external_url,
            author: self.author@,
            contents: self.contents@,
            feedlabel: self.feedlabel@,
            date: self.date,
            feedname: self.feedname@,
            feed_type: self.feed_type,
            appid: self.appid,
            tags: self.tags.deep_view(),
        }
    }
}

impl DeepView for AppNews {
    type V = AppNewsView;

    open spec fn deep_view(&self) -> AppNewsView {
        AppNewsView {
            appid: self.appid,
            newsitems: self.newsitems.deep_view(),
            count: self.count,
        }
    }
}

impl DeepView for News {
    type V = NewsView;

    open spec fn deep_view(&self) -> NewsView {
        NewsView { appnews: self.appnews.deep_view() }
    }
}

/// The news item that the fields `members` of an object at `path` describe.
/// Every field but `tags` must be there; the first field, in the order of
/// the struct, that is missing, repeated or ill-typed gives the error.
pub open spec fn news_item_from(members: Seq<Member>, path: Seq<char>) -> Result<
    NewsItemView,
    DecodeErrorView,
> {
    let gid = text_field(members, "gid"@, path);
    let title = text_field(members, "title"@, path);
    let url = text_field(members, "url"@, path);
    let is_external_url = boolean_field(members, "is_external_url"@, path);
    let author = text_field(members, "author"@, path);
    let contents = text_field(members, "contents"@, path);
    let feedlabel = text_field(members, "feedlabel"@, path);
    let date = i32_field(members, "date"@, path);
    let feedname = text_field(members, "feedname"@, path);
    let feed_type = i16_field(members, "feed_type"@, path);
    let appid = i32_field(members, "appid"@, path);
    let tags = optional_text_list_field(members, "tags"@, path);
    if gid is Err {
        Err(gid->Err_0)
    } else if title is Err {
        Err(title->Err_0)
    } else if url is Err {
        Err(url->Err_0)
    } else if is_external_url is Err {
        Err(is_external_url->Err_0)
    } else if author is Err {
        Err(author->Err_0)
    } else if contents is Err {
        Err(contents->Err_0)
    } else if feedlabel is Err {
        Err(feedlabel->Err_0)
    } else if date is Err {
        Err(date->Err_0)
    } else if feedname is Err {
        Err(feedname->Err_0)
    } else if feed_type is Err {
        Err(feed_type->Err_0)
    } else if appid is Err {
        Err(appid->Err_0)
    } else if tags is Err {
        Err(tags->Err_0)
    } else {
        Ok(
            NewsItemView {
                gid: gid->Ok_0,
                title: title->Ok_0,
                url: url->Ok_0,
                is_external_url: is_external_url->Ok_0,
                author: author->Ok_0,
                contents: contents->Ok_0,
                feedlabel: feedlabel->Ok_0,
                date: date->Ok_0,
                feedname: feedname->Ok_0,
                feed_type: feed_type->Ok_0,
                appid: appid->Ok_0,
                tags: tags->Ok_0,
            },
        )
    }
}

/// Whether every field of a news item that must be there decodes, that is,
/// every field but `tags`.
pub open spec fn required_fields_decode(members: Seq<Member>, path: Seq<char>) -> bool {
    &&& text_field(members, "gid"@, path) is Ok
    &&& text_field(members, "title"@, path) is Ok
    &&& text_field(members, "url"@, path) is Ok
    &&& boolean_field(members, "is_external_url"@, path) is Ok
    &&& text_field(members, "author"@, path) is Ok
    &&& text_field(members, "contents"@, path) is Ok
    &&& text_field(members, "feedlabel"@, path) is Ok
    &&& i32_field(members, "date"@, path) is Ok
    &&& text_field(members, "feedname"@, path) is Ok
    &&& i16_field(members, "feed_type"@, path) is Ok
    &&& i32_field(members, "appid"@, path) is Ok
}

/// Leaving the tags out is no error: an object without a field `tags`, or
/// with `null` for it, whose other fields decode, is a news item without
/// tags.
pub proof fn lemma_tags_may_be_left_out(members: Seq<Member>, path: Seq<char>)
    requires
        required_fields_decode(members, path),
        lookup(members, "tags"@) is Missing || lookup(members, "tags"@) == Lookup::Found(Json::Null),
    ensures
        news_item_from(members, path) is Ok,
        news_item_from(members, path)->Ok_0.tags is None,
{
}

/// The tags never stand in the way of the other fields: whatever the field
/// `tags` holds, a news item that decodes has the other fields as the object
/// gives them.
pub proof fn lemma_tags_decide_tags_only(members: Seq<Member>, path: Seq<char>)
    requires
        news_item_from(members, path) is Ok,
    ensures
        required_fields_decode(members, path),
        optional_text_list_field(members, "tags"@, path) == Ok::<
            Option<Seq<Seq<char>>>,
            DecodeErrorView,
        >(news_item_from(members, path)->Ok_0.tags),
{
}

/// The news item that the JSON value at `path` describes.
pub open spec fn news_item_of(value: Json, path: Seq<char>) -> Result<
    NewsItemView,
    DecodeErrorView,
> {
    match value {
        Json::Object(members) => news_item_from(members@, path),
        _ => Err(failure(path, DecodeErrorKind::WrongType)),
    }
}

/// The outcomes of decoding each element of a list as a news item.
pub open spec fn news_item_outcomes(items: Seq<Json>, path: Seq<char>) -> Seq<
    Result<NewsItemView, DecodeErrorView>,
> {
    Seq::new(items.len(), |k: int| news_item_of(items[k], index_path(path, k as nat)))
}

/// The news items that the JSON list at `path` describes, in its order.
pub open spec fn news_items_of(value: Json, path: Seq<char>) -> Result<
    Seq<NewsItemView>,
    DecodeErrorView,
> {
    match value {
        Json::List(items) => gather(news_item_outcomes(items@, path)),
        _ => Err(failure(path, DecodeErrorKind::WrongType)),
    }
}

/// The required field `newsitems` of an object at `path`.
pub open spec fn news_items_field(members: Seq<Member>, path: Seq<char>) -> Result<
    Seq<NewsItemView>,
    DecodeErrorView,
> {
    match required_field(members, "newsitems"@, path) {
        Ok(value) => news_items_of(value, field_path(path, "newsitems"@)),
        Err(e) => Err(e),
    }
}

/// The news of an application that the JSON value at `path` describes.
pub open spec fn app_news_of(value: Json, path: Seq<char>) -> Result<AppNewsView, DecodeErrorView> {
    match value {
        Json::Object(members) => {
            let appid = i32_field(members@, "appid"@, path);
            let newsitems = news_items_field(members@, path);
            let count = i32_field(members@, "count"@, path);
            if appid is Err {
                Err(appid->Err_0)
            } else if newsitems is Err {
                Err(newsitems->Err_0)
            } else if count is Err {
                Err(count->Err_0)
            } else {
                Ok(
                    AppNewsView {
                        appid: appid->Ok_0,
                        newsitems: newsitems->Ok_0,
                        count: count->Ok_0,
                    },
                )
            }
        },
        _ => Err(failure(path, DecodeErrorKind::WrongType)),
    }
}

/// The reply that the JSON value at `path` describes.
pub open spec fn news_of(value: Json, path: Seq<char>) -> Result<NewsView, DecodeErrorView> {
    match value {
        Json::Object(members) => match required_field(members@, "appnews"@, path) {
            Ok(inner) => match app_news_of(inner, field_path(path, "appnews"@)) {
                Ok(appnews) => Ok(NewsView { appnews }),
                Err(e) => Err(e),
            },
            Err(e) => Err(e),
        },
        _ => Err(failure(path, DecodeErrorKind::WrongType)),
    }
}

impl NewsItem {
    /// Decodes the news item that stands at `path` in a reply.
    pub fn decode(value: &Json, path: &str) -> (r: Result<NewsItem, DecodeError>)
        ensures
            outcome(r) == news_item_of(*value, path@),
    {
        match value {
            Json::Object(members) => {
                let gid: String = decode_text(members, "gid", path)?;
                let title: String = decode_text(members, "title", path)?;
                let url: String = decode_text(members, "url", path)?;
                let is_external_url: bool = decode_boolean(members, "is_external_url", path)?;
                let author: String = decode_text(members, "author", path)?;
                let contents: String = decode_text(members, "contents", path)?;
                let feedlabel: String = decode_text(members, "feedlabel", path)?;
                let date: i32 = decode_i32(members, "date", path)?;
                let feedname: String = decode_text(members, "feedname", path)?;
                let feed_type: i16 = decode_i16(members, "feed_type", path)?;
                let appid: i32 = decode_i32(members, "appid", path)?;
                let tags: Option<Vec<String>> = decode_optional_text_list(members, "tags", path)?;
                Ok(
                    NewsItem {
                        gid,
                        title,
                        url,
                        is_external_url,
                        author,
                        contents,
                        feedlabel,
                        date,
                        feedname,
                        feed_type,
                        appid,
                        tags,
                    },
                )
            },
            _ => Err(value_error(path, DecodeErrorKind::WrongType)),
        }
    }
}

/// Decodes the list of news items that stands at `path` in a reply.
pub fn decode_news_items(value: &Json, path: &str) -> (r: Result<Vec<NewsItem>, DecodeError>)
    ensures
        outcome(r) == news_items_of(*value, path@),
{
    match value {
        Json::List(items) => {
            let ghost outcomes = news_item_outcomes(items@, path@);
            let mut list: Vec<NewsItem> = Vec::new();
            let mut k: usize = 0;
            while k < items.len()
                invariant
                    k <= items.len(),
                    outcomes == news_item_outcomes(items@, path@),
                    news_items_of(*value, path@) == gather(outcomes),
                    list.len() == k,
                    forall|j: int|
                        0 <= j < k ==> #[trigger] outcomes[j] == Ok::<NewsItemView, DecodeErrorView>(
                            list[j].deep_view(),
                        ),
                decreases items.len() - k,
            {
                let at: String = join_index(path, k);
                match NewsItem::decode(&items[k], at.as_str()) {
                    Ok(item) => {
                        list.push(item);
                    },
                    Err(e) => {
                        proof {
                            assert(outcomes[k as int] == Err::<NewsItemView, DecodeErrorView>(
                                e.deep_view(),
                            ));
                            lemma_gather_error(outcomes, k as int);
                        }
                        return Err(e);
                    },
                }
                k = k + 1;
            }
            proof {
                lemma_gather_values(outcomes, list.deep_view());
            }
            Ok(list)
        },
        _ => Err(value_error(path, DecodeErrorKind::WrongType)),
    }
}

impl AppNews {
    /// Decodes the news of an application that stand at `path` in a reply.
    pub fn decode(value: &Json, path: &str) -> (r: Result<AppNews, DecodeError>)
        ensures
            outcome(r) == app_news_of(*value, path@),
    {
        match value {
            Json::Object(members) => {
                let appid: i32 = decode_i32(members, "appid", path)?;
                let list: &Json = get_required(members, "newsitems", path)?;
                let at: String = join_field(path, "newsitems");
                let newsitems: Vec<NewsItem> = decode_news_items(list, at.as_str())?;
                let count: i32 = decode_i32(members, "count", path)?;
                Ok(AppNews { appid, newsitems, count })
            },
            _ => Err(value_error(path, DecodeErrorKind::WrongType)),
        }
    }
}

impl News {
    /// Decodes the reply that stands at `path`; the body of a reply as a
    /// whole stands at the empty path.
    pub fn decode(value: &Json, path: &str) -> (r: Result<News, DecodeError>)
        ensures
            outcome(r) == news_of(*value, path@),
    {
        match value {
            Json::Object(members) => {
                let inner: &Json = get_required(members, "appnews", path)?;
                let at: String = join_field(path, "appnews");
                let appnews: AppNews = AppNews::decode(inner, at.as_str())?;
                Ok(News { appnews })
            },
            _ => Err(value_error(path, DecodeErrorKind::WrongType)),
        }
    }
}

} // verus!

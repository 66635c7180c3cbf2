use newsapi::{
    assemble, hold_to, map_response_err, prepare, settle, Article, Country, Endpoint, NewsAPI,
    NewsAPIResponse, NewsApiError, Reply, Request, AUTHORIZATION, BASE_URL,
};

fn article(n: usize, description: Option<&str>) -> Article {
    Article {
        title: format!("title {}", n),
        url: format!("https://example.com/{}", n),
        description: description.map(|d| d.to_string()),
    }
}

fn envelope(status: &str, code: Option<&str>, articles: Vec<Article>) -> NewsAPIResponse {
    NewsAPIResponse::new(status.to_string(), code.map(|c| c.to_string()), articles)
}

#[test]
fn base_is_the_documented_one() {
    assert_eq!(BASE_URL, "https://newsapi.org/v2/");
    assert_eq!(AUTHORIZATION, "Authorization");
}

#[test]
fn endpoint_and_country_texts() {
    assert_eq!(Endpoint::TopHeadLines.to_string(), "top-headlines");
    assert_eq!(Country::Us.to_string(), "us");
    assert_eq!(Country::Fr.to_string(), "fr");
}

#[test]
fn url_for_every_endpoint_and_country() {
    assert_eq!(
        prepare(Endpoint::TopHeadLines, Country::Us),
        Ok("https://newsapi.org/v2/top-headlines?country=us".to_string())
    );
    assert_eq!(
        prepare(Endpoint::TopHeadLines, Country::Fr),
        Ok("https://newsapi.org/v2/top-headlines?country=fr".to_string())
    );
}

#[test]
fn url_is_base_endpoint_and_country() {
    for country in [Country::Us, Country::Fr] {
        let expected = format!(
            "{}{}?country={}",
            BASE_URL,
            Endpoint::TopHeadLines.to_string(),
            country.to_string()
        );
        assert_eq!(prepare(Endpoint::TopHeadLines, country), Ok(expected.clone()));
        assert_eq!(assemble(BASE_URL, Endpoint::TopHeadLines, country), Ok(expected));
    }
}

#[test]
fn new_client_asks_for_us_top_headlines() {
    let api = NewsAPI::new("secret");
    assert_eq!(
        api.prepare_url(),
        Ok("https://newsapi.org/v2/top-headlines?country=us".to_string())
    );
}

#[test]
fn country_is_the_last_one_set() {
    let mut api = NewsAPI::new("secret");
    api.endpoint(Endpoint::TopHeadLines).country(Country::Fr);
    assert_eq!(
        api.prepare_url(),
        Ok("https://newsapi.org/v2/top-headlines?country=fr".to_string())
    );
    api.country(Country::Us);
    assert_eq!(
        api.prepare_url(),
        Ok("https://newsapi.org/v2/top-headlines?country=us".to_string())
    );
}

#[test]
fn setters_return_the_client_itself() {
    let mut api = NewsAPI::new("secret");
    let same = api.country(Country::Fr).endpoint(Endpoint::TopHeadLines).clone();
    assert_eq!(same, api);
    let mut other = NewsAPI::new("secret");
    other.country(Country::Us).country(Country::Fr);
    assert_eq!(other, api);
}

#[test]
fn request_carries_url_and_key() {
    let mut api = NewsAPI::new("my key");
    api.country(Country::Fr);
    assert_eq!(
        api.request(),
        Ok(Request {
            url: "https://newsapi.org/v2/top-headlines?country=fr".to_string(),
            authorization: "my key".to_string(),
        })
    );
}

#[test]
fn key_is_not_validated() {
    let api = NewsAPI::new("");
    assert_eq!(api.request().unwrap().authorization, "");
    let api = NewsAPI::new(" not\na key ");
    assert_eq!(api.request().unwrap().authorization, " not\na key ");
}

#[test]
fn other_base_with_empty_last_segment() {
    assert_eq!(
        assemble("http://localhost:8080/", Endpoint::TopHeadLines, Country::Us),
        Ok("http://localhost:8080/top-headlines?country=us".to_string())
    );
    assert_eq!(
        assemble("https://example.org/a/b/", Endpoint::TopHeadLines, Country::Fr),
        Ok("https://example.org/a/b/top-headlines?country=fr".to_string())
    );
}

#[test]
fn malformed_base_is_a_url_error() {
    assert_eq!(
        assemble("not a url", Endpoint::TopHeadLines, Country::Us),
        Err(NewsApiError::UrlParsing("relative URL without a base".to_string()))
    );
    assert_eq!(
        assemble("https://", Endpoint::TopHeadLines, Country::Us),
        Err(NewsApiError::UrlParsing("empty host".to_string()))
    );
    assert_eq!(
        assemble("https://newsapi.org:port/v2/", Endpoint::TopHeadLines, Country::Us),
        Err(NewsApiError::UrlParsing("invalid port number".to_string()))
    );
}

#[test]
fn base_that_cannot_be_a_base_is_a_url_error() {
    assert_eq!(
        assemble("mailto:someone@example.com", Endpoint::TopHeadLines, Country::Us),
        Err(NewsApiError::UrlParsing("mailto:someone@example.com".to_string()))
    );
}

#[test]
fn base_out_of_form_is_a_url_error() {
    assert_eq!(
        assemble("HTTPS://NewsAPI.org/v2/", Endpoint::TopHeadLines, Country::Us),
        Err(NewsApiError::UrlParsing(
            "https://newsapi.org/v2/top-headlines?country=us".to_string()
        ))
    );
    assert_eq!(
        assemble("https://newsapi.org/v2", Endpoint::TopHeadLines, Country::Fr),
        Err(NewsApiError::UrlParsing(
            "https://newsapi.org/v2/top-headlines?country=fr".to_string()
        ))
    );
    assert_eq!(
        assemble("https://newsapi.org/v2/?page=1", Endpoint::TopHeadLines, Country::Fr),
        Err(NewsApiError::UrlParsing(
            "https://newsapi.org/v2/top-headlines?country=fr".to_string()
        ))
    );
}

#[test]
fn hold_to_keeps_only_the_form() {
    assert_eq!(hold_to("a?b".to_string(), "a?b"), Ok("a?b".to_string()));
    assert_eq!(
        hold_to("a//b".to_string(), "a/b"),
        Err(NewsApiError::UrlParsing("a//b".to_string()))
    );
    assert_eq!(hold_to(String::new(), "a"), Err(NewsApiError::UrlParsing(String::new())));
}

#[test]
fn ok_envelope_comes_back_as_it_is() {
    let articles = vec![
        article(1, Some("first")),
        article(2, None),
        article(3, Some("")),
    ];
    let api = NewsAPI::new("secret");
    let fetched = api.fetch(Reply::Decoded(envelope("ok", None, articles.clone()))).unwrap();
    assert_eq!(fetched.articles.len(), 3);
    assert_eq!(fetched.articles, articles);
    assert_eq!(fetched.articles[0].title, "title 1");
    assert_eq!(fetched.articles[0].url, "https://example.com/1");
    assert_eq!(fetched.articles[0].description, Some("first".to_string()));
    assert_eq!(fetched.articles[1].description, None);
    assert_eq!(fetched.articles[2].description, Some(String::new()));
    assert_eq!(fetched.status, "ok");
    assert_eq!(fetched.code, None);
}

#[test]
fn ok_envelope_without_articles() {
    let api = NewsAPI::new("secret");
    let fetched = api.fetch(Reply::Decoded(envelope("ok", None, vec![])));
    assert_eq!(fetched, Ok(envelope("ok", None, vec![])));
}

#[test]
fn ok_envelope_keeps_a_code_that_does_not_count() {
    let api = NewsAPI::new("secret");
    let sent = envelope("ok", Some("apiKeyDisabled"), vec![article(1, None)]);
    assert_eq!(api.fetch(Reply::Decoded(sent.clone())), Ok(sent));
}

#[test]
fn disabled_key_is_a_bad_request() {
    let api = NewsAPI::new("secret");
    let fetched = api.fetch(Reply::Decoded(envelope("error", Some("apiKeyDisabled"), vec![])));
    assert_eq!(fetched, Err(NewsApiError::BadRequest("API key disabled".to_string())));
}

#[test]
fn unknown_code_is_a_bad_request() {
    let api = NewsAPI::new("secret");
    for code in ["apiKeyInvalid", "rateLimited", "", "apikeydisabled", "apiKeyDisabled "] {
        let fetched = api.fetch(Reply::Decoded(envelope("error", Some(code), vec![])));
        assert_eq!(fetched, Err(NewsApiError::BadRequest("Unknown error".to_string())));
    }
}

#[test]
fn missing_code_is_a_bad_request() {
    let api = NewsAPI::new("secret");
    let fetched = api.fetch(Reply::Decoded(envelope("error", None, vec![article(1, None)])));
    assert_eq!(fetched, Err(NewsApiError::BadRequest("Unknown error".to_string())));
}

#[test]
fn any_status_but_ok_is_a_bad_request() {
    let api = NewsAPI::new("secret");
    for status in ["", "OK", "Ok", "ok ", "okay", "error", "fail"] {
        let fetched = api.fetch(Reply::Decoded(envelope(status, None, vec![])));
        assert_eq!(fetched, Err(NewsApiError::BadRequest("Unknown error".to_string())));
    }
}

#[test]
fn transport_failure_is_request_failed() {
    let api = NewsAPI::new("secret");
    let fetched = api.fetch(Reply::Unreached("Connection refused".to_string()));
    assert_eq!(fetched, Err(NewsApiError::RequestFailed("Connection refused".to_string())));
}

#[test]
fn unreadable_body_is_convert_string_failed() {
    let api = NewsAPI::new("secret");
    let fetched = api.fetch(Reply::Unreadable("stream did not contain valid UTF-8".to_string()));
    assert_eq!(
        fetched,
        Err(NewsApiError::ConvertStringFailed("stream did not contain valid UTF-8".to_string()))
    );
}

#[test]
fn body_that_is_no_json_is_format_failed() {
    let api = NewsAPI::new("secret");
    let fetched = api.fetch(Reply::Malformed("expected value at line 1 column 1".to_string()));
    assert_eq!(
        fetched,
        Err(NewsApiError::FormatFailed("expected value at line 1 column 1".to_string()))
    );
}

#[test]
fn async_path_has_its_own_transport_error() {
    let api = NewsAPI::new("secret");
    assert_eq!(
        api.async_fetch(Reply::Unreached("Connection refused".to_string())),
        Err(NewsApiError::AsyncRequestFailed("Connection refused".to_string()))
    );
    assert_eq!(
        api.async_fetch(Reply::Unreadable("cut".to_string())),
        Err(NewsApiError::ConvertStringFailed("cut".to_string()))
    );
    assert_eq!(
        api.async_fetch(Reply::Malformed("no json".to_string())),
        Err(NewsApiError::FormatFailed("no json".to_string()))
    );
}

#[test]
fn async_path_settles_envelopes_as_the_blocking_one() {
    let api = NewsAPI::new("secret");
    let sent = envelope("ok", None, vec![article(1, Some("d")), article(2, None)]);
    assert_eq!(api.async_fetch(Reply::Decoded(sent.clone())), Ok(sent.clone()));
    assert_eq!(api.fetch(Reply::Decoded(sent.clone())), Ok(sent));
    let refused = envelope("error", Some("apiKeyDisabled"), vec![]);
    assert_eq!(
        api.async_fetch(Reply::Decoded(refused)),
        Err(NewsApiError::BadRequest("API key disabled".to_string()))
    );
    let refused = envelope("error", Some("sourcesTooMany"), vec![]);
    assert_eq!(
        api.async_fetch(Reply::Decoded(refused)),
        Err(NewsApiError::BadRequest("Unknown error".to_string()))
    );
}

#[test]
fn settle_depends_on_the_status_alone() {
    let sent = envelope("ok", Some("x"), vec![article(7, None)]);
    assert_eq!(settle(sent.clone()), Ok(sent));
    assert_eq!(
        settle(envelope("error", Some("apiKeyDisabled"), vec![article(7, None)])),
        Err(NewsApiError::BadRequest("API key disabled".to_string()))
    );
}

#[test]
fn envelope_knows_whether_it_is_ok() {
    assert!(envelope("ok", None, vec![]).is_ok());
    assert!(!envelope("error", None, vec![]).is_ok());
    assert!(!envelope("", None, vec![]).is_ok());
}

#[test]
fn error_codes_map_to_reasons() {
    assert_eq!(
        map_response_err(Some("apiKeyDisabled".to_string())),
        NewsApiError::BadRequest("API key disabled".to_string())
    );
    assert_eq!(
        map_response_err(Some("apiKeyExhausted".to_string())),
        NewsApiError::BadRequest("Unknown error".to_string())
    );
    assert_eq!(
        map_response_err(Some(String::new())),
        NewsApiError::BadRequest("Unknown error".to_string())
    );
    assert_eq!(map_response_err(None), NewsApiError::BadRequest("Unknown error".to_string()));
}

#[test]
fn errors_announce_themselves() {
    let why = "cause".to_string();
    assert_eq!(
        NewsApiError::RequestFailed(why.clone()).to_string(),
        "Failed to fetch data from url"
    );
    assert_eq!(
        NewsApiError::ConvertStringFailed(why.clone()).to_string(),
        "Failed to convert response to string"
    );
    assert_eq!(NewsApiError::FormatFailed(why.clone()).to_string(), "Failed to format JSON");
    assert_eq!(NewsApiError::UrlParsing(why.clone()).to_string(), "Url error");
    assert_eq!(
        NewsApiError::BadRequest("API key disabled".to_string()).to_string(),
        "Request failed: API key disabled"
    );
    assert_eq!(NewsApiError::AsyncRequestFailed(why).to_string(), "Async request failed");
}

#[test]
fn errors_carry_their_cause() {
    assert_eq!(NewsApiError::RequestFailed("a".to_string()).detail(), "a");
    assert_eq!(NewsApiError::ConvertStringFailed("b".to_string()).detail(), "b");
    assert_eq!(NewsApiError::FormatFailed("c".to_string()).detail(), "c");
    assert_eq!(NewsApiError::UrlParsing("d".to_string()).detail(), "d");
    assert_eq!(NewsApiError::BadRequest("e".to_string()).detail(), "e");
    assert_eq!(NewsApiError::AsyncRequestFailed("f".to_string()).detail(), "f");
}

#[test]
fn base_beyond_reach_is_a_url_error() {
    let mut base = String::from("https://example.org/");
    base.push_str(&"a".repeat(0x0800_0000));
    base.push('/');
    match assemble(&base, Endpoint::TopHeadLines, Country::Us) {
        Err(NewsApiError::UrlParsing(why)) => assert!(why == base),
        other => panic!("{:?}", other.map(|text| text.len())),
    }
}

#[test]
fn long_base_within_reach() {
    let mut base = String::from("https://example.org/");
    base.push_str(&"a".repeat(100_000));
    base.push('/');
    let expected = format!("{}top-headlines?country=fr", base);
    assert!(assemble(&base, Endpoint::TopHeadLines, Country::Fr) == Ok(expected));
}

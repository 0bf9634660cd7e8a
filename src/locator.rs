use vstd::prelude::*;

verus! {

/// Strategies used to select elements from the active DOM.
#[derive(Clone, Copy, Debug, PartialEq, Eq, Structural)]
pub enum WebDriverLocatorStrategy {
    Css,
    LinkText,
    PartialLinkText,
    TagName,
    XPath,
}

/// The protocol token that names each strategy.
pub open spec fn locator_token(s: WebDriverLocatorStrategy) -> Seq<char> {
    match s {
        WebDriverLocatorStrategy::Css => "css selector"@,
        WebDriverLocatorStrategy::LinkText => "link text"@,
        WebDriverLocatorStrategy::PartialLinkText => "partial link text"@,
        WebDriverLocatorStrategy::TagName => "tag name"@,
        WebDriverLocatorStrategy::XPath => "xpath"@,
    }
}

impl WebDriverLocatorStrategy {
    pub fn as_str(&self) -> (r: &'static str)
        ensures
            r@ == locator_token(*self),
    {
        match self {
            WebDriverLocatorStrategy::Css => "css selector",
            WebDriverLocatorStrategy::LinkText => "link text",
            WebDriverLocatorStrategy::PartialLinkText => "partial link text",
            WebDriverLocatorStrategy::TagName => "tag name",
            WebDriverLocatorStrategy::XPath => "xpath",
        }
    }
}

/// Each strategy has its own token: no two strategies share one.
pub proof fn lemma_locator_tokens_distinct(a: WebDriverLocatorStrategy, b: WebDriverLocatorStrategy)
    requires
        a != b,
    ensures
        locator_token(a) != locator_token(b),
{
    reveal_strlit("css selector");
    reveal_strlit("link text");
    reveal_strlit("partial link text");
    reveal_strlit("tag name");
    reveal_strlit("xpath");
    let ta = locator_token(a);
    let tb = locator_token(b);
    if ta == tb {
        assert(ta.len() == tb.len());
        assert(ta[0] == tb[0]);
        assert(ta[ta.len() - 1] == tb[tb.len() - 1]);
    }
}

} // verus!

//! The client's configuration, the parameters of a search, and the request
//! that is put on the wire for them.
//!
//! Nothing here talks to the network. A [`SearchBuilder`] gathers the
//! parameters and [`SearchBuilder::send`] lays out the request: the address,
//! the header that names this client, and the fields of the form in the
//! order and spelling that the backend expects. Sending it is left to the
//! caller's transport.

use crate::language::LanguageTag;
use crate::paging::Pagination;
use crate::text::{
    decimal, decimal_text, flag_text, flag_to_text, has_comma, join_commas, joined,
    lemma_separated_joined, optional_text_view, optional_texts_view, separated,
    strip_trailing_slashes,
};
use vstd::prelude::*;

verus! {

/// Response formats that the search API can be asked for.
#[derive(Debug, Copy, Clone, PartialEq, Eq, Hash, Structural)]
pub enum ResponseFormat {
    /// The JSON response format.
    Json,
}

/// How a format is spelled on the wire.
pub open spec fn format_name(format: ResponseFormat) -> Seq<char> {
    match format {
        ResponseFormat::Json => "json"@,
    }
}

impl ResponseFormat {
    /// The name of the format as it is put in the `format` field.
    pub fn name(&self) -> (r: &'static str)
        ensures
            r@ == format_name(*self),
    {
        match self {
            ResponseFormat::Json => "json",
        }
    }
}

/// The entry point: where the backend is, and the format to ask it for.
/// One client serves any number of searches.
#[derive(Debug, Clone)]
pub struct SearXNGClient {
    base_url: String,
    format: ResponseFormat,
}

impl SearXNGClient {
    /// The address that searches are posted to.
    pub closed spec fn endpoint(&self) -> Seq<char> {
        self.base_url@
    }

    /// The format that the client asks for.
    pub closed spec fn format(&self) -> ResponseFormat {
        self.format
    }

    /// A client for the backend at `base_url`. Searches go to the path
    /// `/search` below it; slashes at the end of `base_url` do not count.
    pub fn new(base_url: &str, format: ResponseFormat) -> (client: SearXNGClient)
        ensures
            client.endpoint() == crate::text::without_trailing_slashes(base_url@) + "/search"@,
            client.format() == format,
    {
        let mut address = String::from_str(strip_trailing_slashes(base_url));
        address.append("/search");
        SearXNGClient { base_url: address, format }
    }

    /// Starts a search for `query`, with every other parameter left out.
    pub fn search<'a>(&'a self, query: &str) -> (builder: SearchBuilder<'a>)
        ensures
            builder.endpoint() == self.endpoint(),
            builder.params() == blank_params(query@, self.format()),
    {
        SearchBuilder::new(self, query)
    }

    /// The address that searches are posted to, as text.
    pub fn url(&self) -> (r: &str)
        ensures
            r@ == self.endpoint(),
    {
        self.base_url.as_str()
    }

    /// The format that the client asks for.
    pub fn response_format(&self) -> (r: ResponseFormat)
        ensures
            r == self.format(),
    {
        self.format
    }
}

/// The parameters of one search request.
#[derive(Debug, Clone)]
pub struct SearchParams {
    /// The query.
    pub q: String,
    pub format: ResponseFormat,
    /// The page to ask for, counted from 1; the backend's first page where
    /// left out.
    pub pageno: Option<u64>,
    pub categories: Option<Vec<String>>,
    pub engines: Option<Vec<String>>,
    pub language: Option<LanguageTag>,
    pub results_on_new_tab: Option<u32>,
    pub image_proxy: Option<bool>,
    pub autocomplete: Option<String>,
    pub safesearch: Option<u32>,
    pub theme: Option<String>,
}

/// The model of [`SearchParams`].
pub struct ParamsModel {
    pub q: Seq<char>,
    pub format: ResponseFormat,
    pub pageno: Option<u64>,
    pub categories: Option<Seq<Seq<char>>>,
    pub engines: Option<Seq<Seq<char>>>,
    pub language: Option<Seq<char>>,
    pub results_on_new_tab: Option<u32>,
    pub image_proxy: Option<bool>,
    pub autocomplete: Option<Seq<char>>,
    pub safesearch: Option<u32>,
    pub theme: Option<Seq<char>>,
}

/// The characters of a language tag that may be absent.
pub open spec fn optional_tag_view(tag: Option<LanguageTag>) -> Option<Seq<char>> {
    match tag {
        Some(t) => Some(t@),
        None => None,
    }
}

impl View for SearchParams {
    type V = ParamsModel;

    open spec fn view(&self) -> ParamsModel {
        ParamsModel {
            q: self.q@,
            format: self.format,
            pageno: self.pageno,
            categories: optional_texts_view(self.categories),
            engines: optional_texts_view(self.engines),
            language: optional_tag_view(self.language),
            results_on_new_tab: self.results_on_new_tab,
            image_proxy: self.image_proxy,
            autocomplete: optional_text_view(self.autocomplete),
            safesearch: self.safesearch,
            theme: optional_text_view(self.theme),
        }
    }
}

/// The parameters of a search for `q` with everything else left out.
pub open spec fn blank_params(q: Seq<char>, format: ResponseFormat) -> ParamsModel {
    ParamsModel {
        q,
        format,
        pageno: None,
        categories: None,
        engines: None,
        language: None,
        results_on_new_tab: None,
        image_proxy: None,
        autocomplete: None,
        safesearch: None,
        theme: None,
    }
}

/// The parameters `p` with the page set to `pageno`.
pub open spec fn with_page(p: ParamsModel, pageno: u64) -> ParamsModel {
    ParamsModel { pageno: Some(pageno), ..p }
}

impl SearchParams {
    /// The parameters of a search for `query`, with everything else left
    /// out.
    pub fn new(query: &str, format: ResponseFormat) -> (params: SearchParams)
        ensures
            params@ == blank_params(query@, format),
    {
        SearchParams {
            q: String::from_str(query),
            format,
            pageno: None,
            categories: None,
            engines: None,
            language: None,
            results_on_new_tab: None,
            image_proxy: None,
            autocomplete: None,
            safesearch: None,
            theme: None,
        }
    }

    /// The fields of the form that carries these parameters.
    pub fn form(&self) -> (form: Vec<FormField>)
        ensures
            form_view(form@) == form_model(self@),
    {
        let mut form: Vec<FormField> = Vec::new();
        assert(form_view(form@) =~= Seq::empty());
        push_entry(&mut form, "q", Some(self.q.clone()));
        push_entry(&mut form, "format", Some(String::from_str(self.format.name())));
        let pageno = match self.pageno {
            Some(n) => Some(decimal_text(n)),
            None => None,
        };
        push_entry(&mut form, "pageno", pageno);
        push_entry(&mut form, "categories", list_to_text(&self.categories));
        push_entry(&mut form, "engines", list_to_text(&self.engines));
        let language = match &self.language {
            Some(tag) => Some(String::from_str(tag.as_str())),
            None => None,
        };
        push_entry(&mut form, "language", language);
        let results_on_new_tab = match self.results_on_new_tab {
            Some(n) => Some(decimal_text(n as u64)),
            None => None,
        };
        push_entry(&mut form, "results_on_new_tab", results_on_new_tab);
        let image_proxy = match self.image_proxy {
            Some(flag) => Some(flag_to_text(flag)),
            None => None,
        };
        push_entry(&mut form, "image_proxy", image_proxy);
        push_entry(&mut form, "autocomplete", self.autocomplete.clone());
        let safesearch = match self.safesearch {
            Some(n) => Some(decimal_text(n as u64)),
            None => None,
        };
        push_entry(&mut form, "safesearch", safesearch);
        push_entry(&mut form, "theme", self.theme.clone());
        form
    }
}

// ---------------------------------------------------------------------------
// The form
// ---------------------------------------------------------------------------
/// One field of a form: a name and a value, both before any encoding.
#[derive(Debug, Clone)]
pub struct FormField {
    pub name: String,
    pub value: String,
}

/// The model of a [`FormField`].
pub struct FieldModel {
    pub name: Seq<char>,
    pub value: Seq<char>,
}

impl View for FormField {
    type V = FieldModel;

    open spec fn view(&self) -> FieldModel {
        FieldModel { name: self.name@, value: self.value@ }
    }
}

/// The models of the fields of a form, in order.
pub open spec fn form_view(form: Seq<FormField>) -> Seq<FieldModel> {
    Seq::new(form.len(), |i: int| form[i]@)
}

/// The field that a parameter contributes: one field where it is set, none
/// where it is left out.
pub open spec fn entry(name: Seq<char>, value: Option<Seq<char>>) -> Seq<FieldModel> {
    match value {
        Some(v) => seq![FieldModel { name, value: v }],
        None => Seq::empty(),
    }
}

/// How a list is written: its items with commas between them; a list that
/// is left out or empty is not written.
pub open spec fn list_text(list: Option<Seq<Seq<char>>>) -> Option<Seq<char>> {
    match list {
        Some(items) => if items.len() > 0 {
            Some(joined(items))
        } else {
            None
        },
        None => None,
    }
}

/// How a page number is written: in decimal digits.
pub open spec fn page_text(n: Option<u64>) -> Option<Seq<char>> {
    match n {
        Some(v) => Some(decimal(v as nat)),
        None => None,
    }
}

/// How a level or a count is written: in decimal digits.
pub open spec fn level_text(n: Option<u32>) -> Option<Seq<char>> {
    match n {
        Some(v) => Some(decimal(v as nat)),
        None => None,
    }
}

/// How a switch is written: `true` or `false`.
pub open spec fn switch_text(flag: Option<bool>) -> Option<Seq<char>> {
    match flag {
        Some(v) => Some(flag_text(v)),
        None => None,
    }
}

/// The form that carries the parameters `p`: the query and the format,
/// then each further parameter that is set, in this order.
pub open spec fn form_model(p: ParamsModel) -> Seq<FieldModel> {
    entry("q"@, Some(p.q)) + entry("format"@, Some(format_name(p.format))) + entry(
        "pageno"@,
        page_text(p.pageno),
    ) + entry("categories"@, list_text(p.categories)) + entry("engines"@, list_text(p.engines))
        + entry("language"@, p.language) + entry(
        "results_on_new_tab"@,
        level_text(p.results_on_new_tab),
    ) + entry("image_proxy"@, switch_text(p.image_proxy)) + entry("autocomplete"@, p.autocomplete)
        + entry("safesearch"@, level_text(p.safesearch)) + entry("theme"@, p.theme)
}

/// A list of categories that is not empty survives the wire: it is written
/// as one field, its items with commas between them, and cutting that
/// field's value at the commas gives the list back, item for item. This
/// holds where no category has a comma in it and the list is not the one
/// empty text.
pub proof fn lemma_categories_survive_the_wire(p: ParamsModel)
    requires
        p.categories is Some,
        p.categories->0.len() > 0,
        forall|i: int| 0 <= i < p.categories->0.len() ==> !has_comma(#[trigger] p.categories->0[i]),
        !(p.categories->0.len() == 1 && p.categories->0[0].len() == 0),
    ensures
        form_count(form_model(p), "categories"@) == 1,
        form_value(form_model(p), "categories"@) == Some(joined(p.categories->0)),
        separated(form_value(form_model(p), "categories"@)->0) == p.categories->0,
{
    lemma_separated_joined(p.categories->0);
    lemma_form_fields(p, "categories"@);
    lemma_names_differ();
}

/// Whether `name` is the name of a parameter.
pub open spec fn parameter_name(name: Seq<char>) -> bool {
    ||| name == "q"@
    ||| name == "format"@
    ||| name == "pageno"@
    ||| name == "categories"@
    ||| name == "engines"@
    ||| name == "language"@
    ||| name == "results_on_new_tab"@
    ||| name == "image_proxy"@
    ||| name == "autocomplete"@
    ||| name == "safesearch"@
    ||| name == "theme"@
}

/// What is written for the parameter of the name `name`.
pub open spec fn parameter_text(p: ParamsModel, name: Seq<char>) -> Option<Seq<char>> {
    if name == "q"@ {
        Some(p.q)
    } else if name == "format"@ {
        Some(format_name(p.format))
    } else if name == "pageno"@ {
        page_text(p.pageno)
    } else if name == "categories"@ {
        list_text(p.categories)
    } else if name == "engines"@ {
        list_text(p.engines)
    } else if name == "language"@ {
        p.language
    } else if name == "results_on_new_tab"@ {
        level_text(p.results_on_new_tab)
    } else if name == "image_proxy"@ {
        switch_text(p.image_proxy)
    } else if name == "autocomplete"@ {
        p.autocomplete
    } else if name == "safesearch"@ {
        level_text(p.safesearch)
    } else if name == "theme"@ {
        p.theme
    } else {
        None
    }
}

/// The value of the first field of the name `name` in a form.
pub open spec fn form_value(form: Seq<FieldModel>, name: Seq<char>) -> Option<Seq<char>>
    decreases form.len(),
{
    if form.len() == 0 {
        None
    } else if form[0].name == name {
        Some(form[0].value)
    } else {
        form_value(form.drop_first(), name)
    }
}

/// How many fields of the name `name` a form has.
pub open spec fn form_count(form: Seq<FieldModel>, name: Seq<char>) -> nat
    decreases form.len(),
{
    if form.len() == 0 {
        0
    } else if form[0].name == name {
        1 + form_count(form.drop_first(), name)
    } else {
        form_count(form.drop_first(), name)
    }
}

/// The fields of two forms written one after the other.
proof fn lemma_form_sum(a: Seq<FieldModel>, b: Seq<FieldModel>, name: Seq<char>)
    ensures
        form_count(a + b, name) == form_count(a, name) + form_count(b, name),
        form_value(a + b, name) == if form_value(a, name) is Some {
            form_value(a, name)
        } else {
            form_value(b, name)
        },
    decreases a.len(),
{
    if a.len() == 0 {
        assert(a + b =~= b);
    } else {
        assert((a + b).drop_first() =~= a.drop_first() + b);
        lemma_form_sum(a.drop_first(), b, name);
    }
}

/// What one parameter contributes under a name.
proof fn lemma_entry(field: Seq<char>, value: Option<Seq<char>>, name: Seq<char>)
    ensures
        form_count(entry(field, value), name) == if field == name && value is Some {
            1nat
        } else {
            0nat
        },
        form_value(entry(field, value), name) == if field == name {
            value
        } else {
            None
        },
{
    reveal_with_fuel(form_count, 2);
    reveal_with_fuel(form_value, 2);
    if value is Some {
        assert(entry(field, value).drop_first() =~= Seq::<FieldModel>::empty());
    }
}

/// No two parameters have the same name.
proof fn lemma_names_differ()
    ensures
        "q"@.len() == 1,
        "format"@.len() == 6 && "format"@[0] == 'f',
        "pageno"@.len() == 6 && "pageno"@[0] == 'p',
        "categories"@.len() == 10 && "categories"@[0] == 'c',
        "engines"@.len() == 7,
        "language"@.len() == 8,
        "results_on_new_tab"@.len() == 18,
        "image_proxy"@.len() == 11,
        "autocomplete"@.len() == 12,
        "safesearch"@.len() == 10 && "safesearch"@[0] == 's',
        "theme"@.len() == 5,
{
    reveal_strlit("q");
    reveal_strlit("format");
    reveal_strlit("pageno");
    reveal_strlit("categories");
    reveal_strlit("engines");
    reveal_strlit("language");
    reveal_strlit("results_on_new_tab");
    reveal_strlit("image_proxy");
    reveal_strlit("autocomplete");
    reveal_strlit("safesearch");
    reveal_strlit("theme");
}

/// Every parameter is written under its own name and at most once: a form
/// has one field of a name where the parameter of that name is set, and
/// none where it is left out or where the name is no parameter's; the
/// field holds what is written for that parameter.
pub proof fn lemma_form_fields(p: ParamsModel, name: Seq<char>)
    ensures
        form_value(form_model(p), name) == parameter_text(p, name),
        form_count(form_model(p), name) == if parameter_text(p, name) is Some {
            1nat
        } else {
            0nat
        },
{
    lemma_names_differ();
    let e0 = entry("q"@, Some(p.q));
    let e1 = entry("format"@, Some(format_name(p.format)));
    let e2 = entry("pageno"@, page_text(p.pageno));
    let e3 = entry("categories"@, list_text(p.categories));
    let e4 = entry("engines"@, list_text(p.engines));
    let e5 = entry("language"@, p.language);
    let e6 = entry("results_on_new_tab"@, level_text(p.results_on_new_tab));
    let e7 = entry("image_proxy"@, switch_text(p.image_proxy));
    let e8 = entry("autocomplete"@, p.autocomplete);
    let e9 = entry("safesearch"@, level_text(p.safesearch));
    let e10 = entry("theme"@, p.theme);
    lemma_entry("q"@, Some(p.q), name);
    lemma_entry("format"@, Some(format_name(p.format)), name);
    lemma_entry("pageno"@, page_text(p.pageno), name);
    lemma_entry("categories"@, list_text(p.categories), name);
    lemma_entry("engines"@, list_text(p.engines), name);
    lemma_entry("language"@, p.language, name);
    lemma_entry("results_on_new_tab"@, level_text(p.results_on_new_tab), name);
    lemma_entry("image_proxy"@, switch_text(p.image_proxy), name);
    lemma_entry("autocomplete"@, p.autocomplete, name);
    lemma_entry("safesearch"@, level_text(p.safesearch), name);
    lemma_entry("theme"@, p.theme, name);
    lemma_form_sum(e0, e1, name);
    lemma_form_sum(e0 + e1, e2, name);
    lemma_form_sum(e0 + e1 + e2, e3, name);
    lemma_form_sum(e0 + e1 + e2 + e3, e4, name);
    lemma_form_sum(e0 + e1 + e2 + e3 + e4, e5, name);
    lemma_form_sum(e0 + e1 + e2 + e3 + e4 + e5, e6, name);
    lemma_form_sum(e0 + e1 + e2 + e3 + e4 + e5 + e6, e7, name);
    lemma_form_sum(e0 + e1 + e2 + e3 + e4 + e5 + e6 + e7, e8, name);
    lemma_form_sum(e0 + e1 + e2 + e3 + e4 + e5 + e6 + e7 + e8, e9, name);
    lemma_form_sum(e0 + e1 + e2 + e3 + e4 + e5 + e6 + e7 + e8 + e9, e10, name);
}

/// Writes a list with commas, if there is one to write.
fn list_to_text(list: &Option<Vec<String>>) -> (r: Option<String>)
    ensures
        optional_text_view(r) == list_text(optional_texts_view(*list)),
{
    match list {
        Some(items) => if items.len() > 0 {
            Some(join_commas(items))
        } else {
            None
        },
        None => None,
    }
}

/// Adds the field of one parameter to the form, if the parameter is set.
fn push_entry(form: &mut Vec<FormField>, name: &str, value: Option<String>)
    ensures
        form_view(final(form)@) == form_view(old(form)@) + entry(name@, optional_text_view(value)),
{
    match value {
        Some(v) => {
            form.push(FormField { name: String::from_str(name), value: v });
            assert(form_view(form@) =~= form_view(old(form)@) + entry(
                name@,
                optional_text_view(value),
            ));
        },
        None => {
            assert(form_view(form@) =~= form_view(old(form)@) + entry(
                name@,
                optional_text_view(value),
            ));
        },
    }
}

// ---------------------------------------------------------------------------
// The request
// ---------------------------------------------------------------------------
/// How a request is made.
#[derive(Debug, Clone, Copy, PartialEq, Eq, Structural)]
pub enum Method {
    /// An HTTP `POST` whose body is the form, URL-encoded.
    Post,
}

/// A search request, ready for a transport: a form to be sent to `url` by
/// `method` under the header `User-Agent: user_agent`.
#[derive(Debug, Clone)]
pub struct Request {
    pub method: Method,
    pub url: String,
    pub user_agent: String,
    pub form: Vec<FormField>,
}

/// The model of a [`Request`].
pub struct RequestModel {
    pub method: Method,
    pub url: Seq<char>,
    pub user_agent: Seq<char>,
    pub form: Seq<FieldModel>,
}

impl View for Request {
    type V = RequestModel;

    open spec fn view(&self) -> RequestModel {
        RequestModel {
            method: self.method,
            url: self.url@,
            user_agent: self.user_agent@,
            form: form_view(self.form@),
        }
    }
}

/// The request that carries the parameters `p` to `endpoint`: a `POST` of
/// their form, under the name of this client.
pub open spec fn request_model(endpoint: Seq<char>, p: ParamsModel) -> RequestModel {
    RequestModel {
        method: Method::Post,
        url: endpoint,
        user_agent: "searxng-rust-client/0.1"@,
        form: form_model(p),
    }
}

/// Gathers the parameters of one search and lays out its requests.
#[derive(Debug, Clone)]
pub struct SearchBuilder<'a> {
    client: &'a SearXNGClient,
    params: SearchParams,
}

impl<'a> SearchBuilder<'a> {
    /// The address that the search is posted to.
    pub closed spec fn endpoint(&self) -> Seq<char> {
        self.client.endpoint()
    }

    /// The parameters gathered so far.
    pub closed spec fn params(&self) -> ParamsModel {
        self.params@
    }

    /// A search for `query` through `client`, with every other parameter
    /// left out.
    pub fn new(client: &'a SearXNGClient, query: &str) -> (builder: SearchBuilder<'a>)
        ensures
            builder.endpoint() == client.endpoint(),
            builder.params() == blank_params(query@, client.format()),
    {
        SearchBuilder { client, params: SearchParams::new(query, client.format) }
    }

    /// The parameters gathered so far.
    pub fn parameters(&self) -> (params: &SearchParams)
        ensures
            params@ == self.params(),
    {
        &self.params
    }

    /// Replaces all parameters by `params`.
    pub fn set_params(self, params: SearchParams) -> (builder: SearchBuilder<'a>)
        ensures
            builder.endpoint() == self.endpoint(),
            builder.params() == params@,
    {
        SearchBuilder { client: self.client, params }
    }

    /// Sets the page to ask for; any number is taken as it is.
    pub fn set_pageno(self, pageno: u64) -> (builder: SearchBuilder<'a>)
        ensures
            builder.endpoint() == self.endpoint(),
            builder.params() == with_page(self.params(), pageno),
    {
        let mut params = self.params;
        params.pageno = Some(pageno);
        SearchBuilder { client: self.client, params }
    }

    /// Lays out the request for the parameters as they stand. The caller
    /// posts it and hands the body that comes back to
    /// [`decode_response`](crate::decode::decode_response).
    pub fn send(&self) -> (request: Request)
        ensures
            request@ == request_model(self.endpoint(), self.params()),
    {
        Request {
            method: Method::Post,
            url: self.client.base_url.clone(),
            user_agent: String::from_str("searxng-rust-client/0.1"),
            form: self.params.form(),
        }
    }

    /// Starts a run over the pages of this search that gathers `num`
    /// results, beginning at page 1. The run says which request to send
    /// next and takes what came back; see [`Pagination`].
    pub fn send_get_num(self, num: usize) -> (run: Pagination<'a>)
        ensures
            run@ == crate::paging::start_model(self.endpoint(), self.params(), num as nat),
    {
        Pagination::start(self, num)
    }
}

} // verus!

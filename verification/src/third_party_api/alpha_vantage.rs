//! A client for the Alpha Vantage time-series API.
//!
//! A query is described by a [`AlphaVantageRangeQuery`]: one of seven
//! time-range functions plus four caller-supplied strings. The library
//! renders the query as the exact URL the upstream API expects
//! ([`render_url`]), and turns the outcome of the HTTP exchange into the
//! query's result ([`complete_query`]). Issuing the HTTP GET itself is
//! left to the caller, who reports what happened as a
//! [`TransportOutcome`].
//!
//! The four string parameters are embedded in the URL verbatim, with no
//! escaping or validation: a value holding `&`, `=` or another reserved
//! character corrupts the query string. Callers must supply values that
//! are safe for URL embedding.

use vstd::prelude::*;

verus! {

/// Specifies the time range function to be called in the Alpha Vantage API.
///
/// The variant's name, rendered by [`AlphaVantageRangeFunction::token_str`],
/// is the literal token sent upstream in the URL's `function` parameter.
#[derive(Clone, Copy, PartialEq, Eq, Structural, Debug)]
pub enum AlphaVantageRangeFunction {
    /// An intraday time series of the equity specified, covering extended trading hours where applicable.
    Intraday,
    /// A daily time series of the equity specified, covering 20+ years of historical data.
    Daily,
    /// A daily time series of the equity specified, covering up to 20 years of historical data with adjusted close values.
    DailyAdjusted,
    /// A weekly time series of the equity specified, covering 20+ years of historical data.
    Weekly,
    /// A weekly time series of the equity specified, covering up to 20 years of historical data with adjusted close values.
    WeeklyAdjusted,
    /// A monthly time series of the equity specified, covering 20+ years of historical data.
    Monthly,
    /// A monthly time series of the equity specified, covering up to 20 years of historical data with adjusted close values.
    MonthlyAdjusted,
}

impl AlphaVantageRangeFunction {
    /// The literal token that stands for this function in the URL.
    pub open spec fn spec_token(self) -> Seq<char> {
        match self {
            AlphaVantageRangeFunction::Intraday => "Intraday"@,
            AlphaVantageRangeFunction::Daily => "Daily"@,
            AlphaVantageRangeFunction::DailyAdjusted => "DailyAdjusted"@,
            AlphaVantageRangeFunction::Weekly => "Weekly"@,
            AlphaVantageRangeFunction::WeeklyAdjusted => "WeeklyAdjusted"@,
            AlphaVantageRangeFunction::Monthly => "Monthly"@,
            AlphaVantageRangeFunction::MonthlyAdjusted => "MonthlyAdjusted"@,
        }
    }

    /// Renders this function as its upstream token.
    pub fn token_str(&self) -> (r: &'static str)
        ensures
            r@ == self.spec_token(),
    {
        match self {
            AlphaVantageRangeFunction::Intraday => "Intraday",
            AlphaVantageRangeFunction::Daily => "Daily",
            AlphaVantageRangeFunction::DailyAdjusted => "DailyAdjusted",
            AlphaVantageRangeFunction::Weekly => "Weekly",
            AlphaVantageRangeFunction::WeeklyAdjusted => "WeeklyAdjusted",
            AlphaVantageRangeFunction::Monthly => "Monthly",
            AlphaVantageRangeFunction::MonthlyAdjusted => "MonthlyAdjusted",
        }
    }
}

/// Specifies the parameters for a query to the Alpha Vantage API.
///
/// All string fields are opaque to the library and pass into the URL
/// verbatim; nothing is escaped, validated or defaulted.
#[derive(Debug, Clone)]
pub struct AlphaVantageRangeQuery {
    /// The function to be called in the Alpha Vantage API
    pub function: AlphaVantageRangeFunction,
    /// The symbol of the equity to be queried
    pub symbol: String,
    /// The API key to be used in the query
    pub api_key: String,
    /// The interval between two consecutive data points in the time series
    pub interval: String,
    /// The size of the output time series of the query
    pub output_size: String,
}

/// The five query parameters, rendered in the fixed upstream order
/// `function, symbol, apikey, interval, outputsize`, each populated with
/// the corresponding field verbatim.
pub open spec fn params_chars(query: AlphaVantageRangeQuery) -> Seq<char> {
    "function="@ + query.function.spec_token() + "&symbol="@ + query.symbol@ + "&apikey="@
        + query.api_key@ + "&interval="@ + query.interval@ + "&outputsize="@
        + query.output_size@
}

/// The complete query URL: the fixed base endpoint followed by the five
/// rendered parameters.
pub open spec fn url_chars(query: AlphaVantageRangeQuery) -> Seq<char> {
    "https://www.alphavantage.co/query"@ + "?"@ + params_chars(query)
}

/// Renders the URL for a query: the fixed base endpoint
/// `https://www.alphavantage.co/query`, then the five parameters in the
/// fixed order, each holding its field's characters unchanged.
pub fn render_url(query: &AlphaVantageRangeQuery) -> (r: String)
    ensures
        r@ == url_chars(*query),
{
    let mut url = "https://www.alphavantage.co/query".to_owned();
    url.append("?");
    let params = describe(query);
    url.append(params.as_str());
    proof {
        assert(url@ =~= url_chars(*query));
    }
    url
}

/// Renders the five query parameters alone, as they appear after the `?`
/// in the URL. Used both for the URL and as the diagnostic description
/// attached to a failing query's error.
pub fn describe(query: &AlphaVantageRangeQuery) -> (r: String)
    ensures
        r@ == params_chars(*query),
{
    let mut params = "function=".to_owned();
    params.append(query.function.token_str());
    params.append("&symbol=");
    params.append(query.symbol.as_str());
    params.append("&apikey=");
    params.append(query.api_key.as_str());
    params.append("&interval=");
    params.append(query.interval.as_str());
    params.append("&outputsize=");
    params.append(query.output_size.as_str());
    proof {
        assert(params@ =~= params_chars(*query));
    }
    params
}

/// The token table of the seven time-range functions: for every variant,
/// the URL's `function` parameter value is exactly this literal token.
pub proof fn lemma_function_token_table()
    ensures
        AlphaVantageRangeFunction::Intraday.spec_token() == "Intraday"@,
        AlphaVantageRangeFunction::Daily.spec_token() == "Daily"@,
        AlphaVantageRangeFunction::DailyAdjusted.spec_token() == "DailyAdjusted"@,
        AlphaVantageRangeFunction::Weekly.spec_token() == "Weekly"@,
        AlphaVantageRangeFunction::WeeklyAdjusted.spec_token() == "WeeklyAdjusted"@,
        AlphaVantageRangeFunction::Monthly.spec_token() == "Monthly"@,
        AlphaVantageRangeFunction::MonthlyAdjusted.spec_token() == "MonthlyAdjusted"@,
{
}

/// For every query, the rendered URL opens with the fixed base endpoint
/// and the `function` parameter, whose value is exactly the chosen
/// variant's literal token, closed by the `&` that starts the `symbol`
/// parameter.
pub proof fn lemma_url_function_parameter(query: AlphaVantageRangeQuery)
    ensures
        url_chars(query).subrange(0, 43) == "https://www.alphavantage.co/query?function="@,
        url_chars(query).subrange(
            43,
            43 + query.function.spec_token().len() as int,
        ) == query.function.spec_token(),
        url_chars(query)[43 + query.function.spec_token().len() as int] == '&',
{
    reveal_strlit("https://www.alphavantage.co/query");
    reveal_strlit("?");
    reveal_strlit("function=");
    reveal_strlit("&symbol=");
    reveal_strlit("https://www.alphavantage.co/query?function=");
    assert(url_chars(query).subrange(0, 43)
        =~= "https://www.alphavantage.co/query?function="@);
    assert(url_chars(query).subrange(43, 43 + query.function.spec_token().len() as int)
        =~= query.function.spec_token());
}

/// For every query, the URL is the fixed base endpoint followed by
/// exactly five query parameters in the fixed order `function, symbol,
/// apikey, interval, outputsize`, each populated with the corresponding
/// field verbatim: no reordering, no substitution, no escaping.
pub proof fn lemma_url_parameter_order(query: AlphaVantageRangeQuery)
    ensures
        url_chars(query) == "https://www.alphavantage.co/query?"@ + "function="@
            + query.function.spec_token() + "&symbol="@ + query.symbol@ + "&apikey="@
            + query.api_key@ + "&interval="@ + query.interval@ + "&outputsize="@
            + query.output_size@,
{
    reveal_strlit("https://www.alphavantage.co/query");
    reveal_strlit("?");
    reveal_strlit("https://www.alphavantage.co/query?");
    assert(url_chars(query) =~= "https://www.alphavantage.co/query?"@ + "function="@
        + query.function.spec_token() + "&symbol="@ + query.symbol@ + "&apikey="@
        + query.api_key@ + "&interval="@ + query.interval@ + "&outputsize="@
        + query.output_size@);
}

/// What the HTTP transport reported for one GET request, as the caller
/// observed it. The library never issues the request itself: the caller
/// fetches the rendered URL and hands back one of these four outcomes.
#[derive(Debug)]
pub enum TransportOutcome {
    /// The request could not be sent at all (connection or transport failure).
    SendFailed,
    /// The request was sent but the transport's own success check failed
    /// (a non-success status, or a transport-level error it surfaced).
    Unsuccessful,
    /// The response arrived with a successful status but its body could
    /// not be decoded as text.
    Undecodable,
    /// The response arrived with a successful status; the value is its
    /// complete body, decoded as text.
    Body(String),
}

/// Why a query failed. Each variant carries a diagnostic message that
/// names the failure and renders the failing query's parameters.
#[derive(Debug, PartialEq, Eq)]
pub enum AlphaVantageError {
    /// The request could not be sent.
    TransportError(String),
    /// The transport's success check failed for the response.
    UnsuccessfulResponse(String),
    /// The response body could not be decoded as text.
    DecodeError(String),
}

impl AlphaVantageError {
    /// The diagnostic message carried by this error.
    pub fn message(&self) -> (r: &String)
        ensures
            r == match self {
                AlphaVantageError::TransportError(m) => m,
                AlphaVantageError::UnsuccessfulResponse(m) => m,
                AlphaVantageError::DecodeError(m) => m,
            },
    {
        match self {
            AlphaVantageError::TransportError(m) => m,
            AlphaVantageError::UnsuccessfulResponse(m) => m,
            AlphaVantageError::DecodeError(m) => m,
        }
    }
}

/// The diagnostic message for a query whose request could not be sent.
pub open spec fn send_failure_chars(query: AlphaVantageRangeQuery) -> Seq<char> {
    "Failed to send request for query "@ + params_chars(query)
}

/// The diagnostic message for a query whose response failed the
/// transport's success check.
pub open spec fn unsuccessful_response_chars(query: AlphaVantageRangeQuery) -> Seq<char> {
    "Unsuccessful response status for query "@ + params_chars(query)
}

/// The diagnostic message for a query whose response body could not be
/// decoded as text.
pub open spec fn decode_failure_chars(query: AlphaVantageRangeQuery) -> Seq<char> {
    "Failed to get response text for query "@ + params_chars(query)
}

/// Turns the transport's outcome for a query into the query's result.
///
/// A decoded body is returned unchanged, whatever it holds: the library
/// does not know whether it is JSON, CSV or an API-level error payload.
/// Each of the three failure outcomes maps to its own error variant,
/// carrying a message that renders the failing query's parameters.
pub fn complete_query(query: &AlphaVantageRangeQuery, outcome: TransportOutcome) -> (r: Result<
    String,
    AlphaVantageError,
>)
    ensures
        match outcome {
            TransportOutcome::Body(body) => r == Ok::<String, AlphaVantageError>(body),
            TransportOutcome::SendFailed => (r matches Err(AlphaVantageError::TransportError(m))
                && m@ == send_failure_chars(*query)),
            TransportOutcome::Unsuccessful => (r matches Err(
                AlphaVantageError::UnsuccessfulResponse(m),
            ) && m@ == unsuccessful_response_chars(*query)),
            TransportOutcome::Undecodable => (r matches Err(AlphaVantageError::DecodeError(m))
                && m@ == decode_failure_chars(*query)),
        },
{
    match outcome {
        TransportOutcome::Body(body) => Ok(body),
        TransportOutcome::SendFailed => {
            let mut message = "Failed to send request for query ".to_owned();
            let params = describe(query);
            message.append(params.as_str());
            Err(AlphaVantageError::TransportError(message))
        },
        TransportOutcome::Unsuccessful => {
            let mut message = "Unsuccessful response status for query ".to_owned();
            let params = describe(query);
            message.append(params.as_str());
            Err(AlphaVantageError::UnsuccessfulResponse(message))
        },
        TransportOutcome::Undecodable => {
            let mut message = "Failed to get response text for query ".to_owned();
            let params = describe(query);
            message.append(params.as_str());
            Err(AlphaVantageError::DecodeError(message))
        },
    }
}

} // verus!

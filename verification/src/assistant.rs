use vstd::prelude::*;
use crate::ai::{AiParsedNotification, AiTransactionQuery, parsed_complaint, validate_parsed_notification};
use crate::error::concat;
use crate::notifications::opt_text;
use crate::search::{first_index, lemma_first_index_found, lemma_first_index_none};
use crate::text::text_eq;

verus! {

/// The language-model service that reads notifications and questions.
#[derive(Debug, Clone, Copy, PartialEq, Eq, Structural)]
pub enum Provider {
    Ollama,
    Gemini,
}

/// The provider's name as error messages give it.
pub open spec fn provider_name(p: Provider) -> Seq<char> {
    match p {
        Provider::Ollama => "Ollama"@,
        Provider::Gemini => "Gemini"@,
    }
}

/// Name of the tool through which the model reports a transaction.
pub open spec fn extract_tool() -> Seq<char> {
    "extract_transaction"@
}

/// Name of the tool through which the model reports query filters.
pub open spec fn query_tool() -> Seq<char> {
    "query_transactions"@
}

/// The instructions for reading a notification.
pub open spec fn notification_instructions() -> Seq<char> {
    "You are a financial assistant. Analyze notification messages to determine if they are financial transactions.\n\n### RULES:\n1. Set 'is_transaction' to true if and only if the notification describes a completed or pending financial transaction (Transfer, Payment, Top-up, Income, Expense, or Bill).\n2. If 'is_transaction' is true, you must extract: amount, transaction_type ('income', 'expense', or 'transfer'), title, pocket, and category.\n3. If the message is not a financial transaction (e.g. vague, chat, OTP, verification, system alert, etc.), set 'is_transaction' to false.\n\n### EXAMPLES:\n- Input: 'Transfer Rp 50.000 ke Tokopedia' -> is_transaction = true, amount = 50000, transaction_type = 'expense', title = 'Tokopedia'.\n- Input: 'Anda menerima transfer sebesar Rp 100.000 dari Budi' -> is_transaction = true, amount = 100000, transaction_type = 'income', title = 'Transfer from Budi'.\n- Input: 'Gunakan OTP 123456 untuk masuk ke akun Anda' -> is_transaction = false.\n- Input: 'Uang' -> is_transaction = false.\n\nExtract the likely pocket/wallet name and category from the text if possible."@
}

/// The message that hands a notification to the model.
pub open spec fn notification_message(title: Seq<char>, body: Seq<char>) -> Seq<char> {
    "Notification Title: "@ + title + "\nNotification Body: "@ + body
}

/// The instructions for reading a question about transactions, given the
/// current date and time.
pub open spec fn query_instructions(current_date: Seq<char>) -> Seq<char> {
    "You are a financial query parser. Parse the user's request and extract filtering parameters for querying a transaction database.\nCurrent date and time is "@ + current_date + ".\nExtract start_date, end_date (in ISO 8601 format, e.g. 2026-05-01T00:00:00Z), category_name, pocket_name, transaction_type (income, expense, transfer), and limit (number).\nIf no specific date is mentioned, do not provide dates. E.g. 'last month', 'this week', 'yesterday' should be translated to exact ISO 8601 bounds."@
}

/// The instructions for analysing transactions.
pub open spec fn analysis_instructions() -> Seq<char> {
    "You are an expert personal finance AI assistant. Analyze the user's transactions provided in JSON format and respond to their query. Provide rich, actionable, and visually appealing financial analysis, breakdown of spending/income patterns, and personalized recommendations. Use clean and well-structured Markdown."@
}

/// The question asked when the user asks none.
pub open spec fn default_analysis_question() -> Seq<char> {
    "Analyze my transactions, provide an overview of my financial status, spending habits, and actionable recommendations."@
}

/// The message that hands transactions (as JSON) and the question to the
/// model.
pub open spec fn analysis_message(transactions_json: Seq<char>, question: Option<Seq<char>>) -> Seq<char> {
    let q = match question {
        Some(q) => q,
        None => default_analysis_question(),
    };
    "Transactions JSON:\n"@ + transactions_json + "\n\nUser Query: "@ + q
}

/// The Gemini endpoint of a model, for a whole reply or a stream of
/// server-sent events.
pub open spec fn gemini_endpoint(model: Seq<char>, key: Seq<char>, streaming: bool) -> Seq<char> {
    let method = if streaming { ":streamGenerateContent?alt=sse&key="@ } else { ":generateContent?key="@ };
    "https://generativelanguage.googleapis.com/v1beta/models/"@ + model + method + key
}

/// The chat endpoint of an Ollama server.
pub open spec fn ollama_endpoint(host: Seq<char>) -> Seq<char> {
    host + "/api/chat"@
}

/// The message for a reply with an unsuccessful status.
pub open spec fn api_error_message(p: Provider, status: Seq<char>, body: Seq<char>) -> Seq<char> {
    provider_name(p) + " API error ("@ + status + "): "@ + body
}

/// The message for a reply body that is not what the provider promises.
pub open spec fn reply_parse_message(p: Provider, reason: Seq<char>) -> Seq<char> {
    match p {
        Provider::Gemini => "Failed to parse Gemini response: "@ + reason,
        Provider::Ollama => reason,
    }
}

/// The instructions for reading a notification.
pub fn notification_prompt() -> (r: String)
    ensures
        r@ == notification_instructions(),
{
    String::from_str("You are a financial assistant. Analyze notification messages to determine if they are financial transactions.\n\n### RULES:\n1. Set 'is_transaction' to true if and only if the notification describes a completed or pending financial transaction (Transfer, Payment, Top-up, Income, Expense, or Bill).\n2. If 'is_transaction' is true, you must extract: amount, transaction_type ('income', 'expense', or 'transfer'), title, pocket, and category.\n3. If the message is not a financial transaction (e.g. vague, chat, OTP, verification, system alert, etc.), set 'is_transaction' to false.\n\n### EXAMPLES:\n- Input: 'Transfer Rp 50.000 ke Tokopedia' -> is_transaction = true, amount = 50000, transaction_type = 'expense', title = 'Tokopedia'.\n- Input: 'Anda menerima transfer sebesar Rp 100.000 dari Budi' -> is_transaction = true, amount = 100000, transaction_type = 'income', title = 'Transfer from Budi'.\n- Input: 'Gunakan OTP 123456 untuk masuk ke akun Anda' -> is_transaction = false.\n- Input: 'Uang' -> is_transaction = false.\n\nExtract the likely pocket/wallet name and category from the text if possible.")
}

/// The message that hands a notification to the model.
pub fn notification_user_message(title: &str, body: &str) -> (r: String)
    ensures
        r@ == notification_message(title@, body@),
{
    let m = concat("Notification Title: ", title);
    let m = concat(m.as_str(), "\nNotification Body: ");
    concat(m.as_str(), body)
}

/// The instructions for reading a question, given the current date.
pub fn query_prompt(current_date: &str) -> (r: String)
    ensures
        r@ == query_instructions(current_date@),
{
    let m = concat("You are a financial query parser. Parse the user's request and extract filtering parameters for querying a transaction database.\nCurrent date and time is ", current_date);
    concat(m.as_str(), ".\nExtract start_date, end_date (in ISO 8601 format, e.g. 2026-05-01T00:00:00Z), category_name, pocket_name, transaction_type (income, expense, transfer), and limit (number).\nIf no specific date is mentioned, do not provide dates. E.g. 'last month', 'this week', 'yesterday' should be translated to exact ISO 8601 bounds.")
}

/// The instructions for analysing transactions.
pub fn analysis_prompt() -> (r: String)
    ensures
        r@ == analysis_instructions(),
{
    String::from_str("You are an expert personal finance AI assistant. Analyze the user's transactions provided in JSON format and respond to their query. Provide rich, actionable, and visually appealing financial analysis, breakdown of spending/income patterns, and personalized recommendations. Use clean and well-structured Markdown.")
}

/// The message that hands transactions and the question to the model.
pub fn analysis_user_message(transactions_json: &str, question: Option<&str>) -> (r: String)
    ensures
        r@ == analysis_message(transactions_json@, match question {
            Some(q) => Some(q@),
            None => None,
        }),
{
    let q = match question {
        Some(q) => q,
        None => "Analyze my transactions, provide an overview of my financial status, spending habits, and actionable recommendations.",
    };
    let m = concat("Transactions JSON:\n", transactions_json);
    let m = concat(m.as_str(), "\n\nUser Query: ");
    concat(m.as_str(), q)
}

/// The Gemini endpoint of a model.
pub fn gemini_url(model: &str, key: &str, streaming: bool) -> (r: String)
    ensures
        r@ == gemini_endpoint(model@, key@, streaming),
{
    let m = concat("https://generativelanguage.googleapis.com/v1beta/models/", model);
    let m = if streaming {
        concat(m.as_str(), ":streamGenerateContent?alt=sse&key=")
    } else {
        concat(m.as_str(), ":generateContent?key=")
    };
    concat(m.as_str(), key)
}

/// The chat endpoint of an Ollama server.
pub fn ollama_url(host: &str) -> (r: String)
    ensures
        r@ == ollama_endpoint(host@),
{
    concat(host, "/api/chat")
}

/// The message for a reply with an unsuccessful status; `status` is the
/// status as HTTP prints it (code and reason).
pub fn api_error_text(p: Provider, status: &str, body: &str) -> (r: String)
    ensures
        r@ == api_error_message(p, status@, body@),
{
    let name = match p {
        Provider::Ollama => "Ollama",
        Provider::Gemini => "Gemini",
    };
    let m = concat(name, " API error (");
    let m = concat(m.as_str(), status);
    let m = concat(m.as_str(), "): ");
    concat(m.as_str(), body)
}

/// The message for a reply body that could not be read.
pub fn reply_parse_text(p: Provider, reason: &str) -> (r: String)
    ensures
        r@ == reply_parse_message(p, reason@),
{
    match p {
        Provider::Gemini => concat("Failed to parse Gemini response: ", reason),
        Provider::Ollama => String::from_str(reason),
    }
}

/// The names of tool calls as plain values.
pub open spec fn names_view(names: Seq<String>) -> Seq<Seq<char>> {
    names.map_values(|n: String| n@)
}

/// The first call with the given name, if any.
pub open spec fn first_call_named(names: Seq<Seq<char>>, expected: Seq<char>) -> Option<int> {
    let k = first_index(names.len() as int, |i: int| names[i] == expected);
    if k < 0 { None } else { Some(k) }
}

/// Picks, among the tool calls of an Ollama reply (by their names), the
/// first one with the expected name.
pub fn find_named_call(names: &Vec<String>, expected: &str) -> (r: Option<usize>)
    ensures
        match first_call_named(names_view(names@), expected@) {
            Some(k) => r == Some(k as usize),
            None => r is None,
        },
{
    let ghost v = names_view(names@);
    let ghost p = |i: int| v[i] == expected@;
    let mut i: usize = 0;
    while i < names.len()
        invariant
            i <= names@.len(),
            v == names_view(names@),
            p == (|i: int| v[i] == expected@),
            forall|j: int| 0 <= j < i ==> !#[trigger] p(j),
        decreases names@.len() - i,
    {
        if text_eq(names[i].as_str(), expected) {
            proof {
                assert(p(i as int));
                lemma_first_index_found(v.len() as int, p, i as int);
            }
            return Some(i);
        }
        proof {
            assert(!p(i as int));
        }
        i = i + 1;
    }
    proof {
        lemma_first_index_none(v.len() as int, p);
    }
    None
}

/// The message when Gemini returns no candidate.
pub open spec fn no_candidates_message() -> Seq<char> {
    "No candidates returned by Gemini"@
}

/// The first part holding a function call, if any.
pub open spec fn first_call_part(parts: Seq<bool>) -> Option<int> {
    let k = first_index(parts.len() as int, |i: int| parts[i]);
    if k < 0 { None } else { Some(k) }
}

/// Picks the part of a Gemini reply whose function call is used: in the
/// first candidate, the first part that holds a call. `candidates` tells,
/// for each candidate and each of its parts, whether the part holds a
/// function call (a reply without candidates is an empty list). With no
/// candidate the reply is refused; with no call there is none to use.
pub fn find_gemini_call(candidates: &Vec<Vec<bool>>) -> (r: Result<Option<usize>, String>)
    ensures
        candidates@.len() == 0 ==> (r matches Err(e) && e@ == no_candidates_message()),
        candidates@.len() > 0 ==> match first_call_part(candidates@[0]@) {
            Some(k) => r == Ok::<Option<usize>, String>(Some(k as usize)),
            None => r == Ok::<Option<usize>, String>(None),
        },
{
    if candidates.len() == 0 {
        return Err(String::from_str("No candidates returned by Gemini"));
    }
    let parts = &candidates[0];
    let ghost s = parts@;
    let ghost p = |i: int| s[i];
    let mut i: usize = 0;
    while i < parts.len()
        invariant
            i <= s.len(),
            s == parts@,
            candidates@.len() > 0,
            s == candidates@[0]@,
            p == (|i: int| s[i]),
            forall|j: int| 0 <= j < i ==> !#[trigger] p(j),
        decreases s.len() - i,
    {
        if parts[i] {
            proof {
                lemma_first_index_found(s.len() as int, p, i as int);
            }
            return Ok(Some(i));
        }
        i = i + 1;
    }
    proof {
        lemma_first_index_none(s.len() as int, p);
    }
    Ok(None)
}

/// What the model's reply to a notification comes to, given the tool call
/// used (its name, and its arguments as read or the reader's message):
/// no call means no transaction; a call of another tool, arguments that
/// could not be read, and a transaction without amount, type or title are
/// refused; else what was read.
pub open spec fn notification_reply(call: Option<(String, Result<AiParsedNotification, String>)>) -> Result<Option<AiParsedNotification>, Seq<char>> {
    match call {
        None => Ok(None),
        Some((name, args)) => if name@ != extract_tool() {
            Err("Unexpected function call: "@ + name@)
        } else {
            match args {
                Err(e) => Err("Failed to parse tool arguments: "@ + e@),
                Ok(p) => match parsed_complaint(p) {
                    Some(m) => Err(m),
                    None => Ok(Some(p)),
                },
            }
        },
    }
}

/// Decides the outcome of a notification reply; see `notification_reply`.
pub fn notification_outcome(call: Option<(String, Result<AiParsedNotification, String>)>) -> (r: Result<Option<AiParsedNotification>, String>)
    ensures
        match (r, notification_reply(call)) {
            (Ok(a), Ok(b)) => a == b,
            (Err(e), Err(f)) => e@ == f,
            _ => false,
        },
{
    match call {
        None => Ok(None),
        Some((name, args)) => {
            if !text_eq(name.as_str(), "extract_transaction") {
                return Err(concat("Unexpected function call: ", name.as_str()));
            }
            match args {
                Err(e) => Err(concat("Failed to parse tool arguments: ", e.as_str())),
                Ok(p) => match validate_parsed_notification(p) {
                    Ok(q) => Ok(Some(q)),
                    Err(m) => Err(m),
                },
            }
        },
    }
}

/// The filters of a question when the model called no tool: none.
pub open spec fn no_filters(q: AiTransactionQuery) -> bool {
    &&& q.pocket_name is None && q.category_name is None
    &&& q.start_date is None && q.end_date is None
    &&& q.transaction_type is None && q.limit is None
}

/// The message for tool arguments of a question that could not be read.
pub open spec fn query_args_message(p: Provider, reason: Seq<char>) -> Seq<char> {
    match p {
        Provider::Gemini => "Failed to parse tool args: "@ + reason,
        Provider::Ollama => "Failed to parse tool arguments: "@ + reason,
    }
}

/// What the model's reply to a question comes to, given the arguments of
/// the tool call used (nothing when there was no call): no call means no
/// filters; arguments that could not be read are refused.
pub fn query_outcome(p: Provider, call: Option<Result<AiTransactionQuery, String>>) -> (r: Result<AiTransactionQuery, String>)
    ensures
        match call {
            None => r matches Ok(q) && no_filters(q),
            Some(Ok(q)) => r == Ok::<AiTransactionQuery, String>(q),
            Some(Err(e)) => r matches Err(m) && m@ == query_args_message(p, e@),
        },
{
    match call {
        None => Ok(AiTransactionQuery {
            pocket_name: None,
            category_name: None,
            start_date: None,
            end_date: None,
            transaction_type: None,
            limit: None,
        }),
        Some(Ok(q)) => Ok(q),
        Some(Err(e)) => match p {
            Provider::Gemini => Err(concat("Failed to parse tool args: ", e.as_str())),
            Provider::Ollama => Err(concat("Failed to parse tool arguments: ", e.as_str())),
        },
    }
}

} // verus!

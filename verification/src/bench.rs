use vstd::prelude::*;

use crate::config::{
    get_json_value_as_string, get_json_value_as_u64, lookup_string, lookup_u64, string_result_model,
    ConfigError, ConfigErrorModel,
};
use crate::json::{models, Json, JsonModel};
use crate::process::{lossy_text, lossy_utf8};
use crate::text::{decimal, decimal_text};

verus! {

/// The command line of one `ab-go` benchmark.
pub open spec fn ab_go_command(
    base_url: Seq<char>,
    path: Seq<char>,
    requests: u64,
    concurrency: u64,
    postdata: Seq<char>,
    port: u64,
) -> Seq<char> {
    "./bin/ab-go -H \"content-type: application/json\" -n "@ + decimal_text(requests as nat) + " -c "@
        + decimal_text(concurrency as nat) + " -p "@ + postdata + " -port "@ + decimal_text(port as nat) + " "@
        + base_url + path
}

/// What reading one benchmark's settings gives: its command line, or the
/// first of `path`, `requests`, `concurrency`, `postdata` and `port` that is
/// missing or of the wrong kind.
pub open spec fn ab_test_command_of(base_url: Seq<char>, item: JsonModel) -> Result<Seq<char>, ConfigErrorModel> {
    match lookup_string(item, "path"@) {
        Err(e) => Err(e),
        Ok(path) => match lookup_u64(item, "requests"@) {
            Err(e) => Err(e),
            Ok(requests) => match lookup_u64(item, "concurrency"@) {
                Err(e) => Err(e),
                Ok(concurrency) => match lookup_string(item, "postdata"@) {
                    Err(e) => Err(e),
                    Ok(postdata) => match lookup_u64(item, "port"@) {
                        Err(e) => Err(e),
                        Ok(port) => Ok(ab_go_command(base_url, path, requests, concurrency, postdata, port)),
                    },
                },
            },
        },
    }
}

/// Reads one benchmark's settings and gives the `ab-go` command line that
/// runs it against the server at `base_url`.
pub fn ab_test_command(base_url: &str, item: &Json) -> (r: Result<String, ConfigError>)
    ensures
        string_result_model(r) == ab_test_command_of(base_url@, item.model()),
{
    let path = get_json_value_as_string(item, "path")?;
    let requests = get_json_value_as_u64(item, "requests")?;
    let concurrency = get_json_value_as_u64(item, "concurrency")?;
    let postdata = get_json_value_as_string(item, "postdata")?;
    let port = get_json_value_as_u64(item, "port")?;
    let requests_text = decimal(requests);
    let concurrency_text = decimal(concurrency);
    let port_text = decimal(port);

    let mut command = String::from_str("./bin/ab-go -H \"content-type: application/json\" -n ");
    command.append(requests_text.as_str());
    command.append(" -c ");
    command.append(concurrency_text.as_str());
    command.append(" -p ");
    command.append(postdata.as_str());
    command.append(" -port ");
    command.append(port_text.as_str());
    command.append(" ");
    command.append(base_url);
    command.append(path.as_str());
    Ok(command)
}

/// The model of the outcome of reading a list of documents.
pub open spec fn list_result_model(r: Result<Vec<Json>, ConfigError>) -> Result<Seq<JsonModel>, ConfigErrorModel> {
    match r {
        Ok(items) => Ok(models(items@)),
        Err(e) => Err(e.model()),
    }
}

/// What the performance section gives: its items, when it is an array.
pub open spec fn performance_items_of(items: JsonModel) -> Result<Seq<JsonModel>, ConfigErrorModel> {
    match items.as_array() {
        Some(list) => Ok(list),
        None => Err(ConfigErrorModel::NotArray { what: "Performance item"@, value: items }),
    }
}

/// The performance test items: a copy of the performance section, which
/// must be an array.
pub fn performance(items: &Json) -> (r: Result<Vec<Json>, ConfigError>)
    ensures
        list_result_model(r) == performance_items_of(items.model()),
{
    match items.as_array() {
        Some(list) => {
            let mut copies: Vec<Json> = Vec::new();
            let mut i: usize = 0;
            while i < list.len()
                invariant
                    i <= list@.len(),
                    copies@.len() == i,
                    forall|j: int| 0 <= j < i ==> #[trigger] copies@[j].model() == list@[j].model(),
                decreases list@.len() - i,
            {
                copies.push(list[i].duplicate());
                i = i + 1;
            }
            assert(models(copies@) =~= models(list@));
            Ok(copies)
        },
        None => Err(ConfigError::NotArray { what: String::from_str("Performance item"), value: items.duplicate() }),
    }
}

/// What is kept of a benchmark's run: its standard output when it succeeded,
/// and nothing otherwise.
pub fn bench_result(success: bool, stdout: &Vec<u8>) -> (text: String)
    ensures
        text@ == if success { lossy_utf8(stdout@) } else { Seq::empty() },
{
    if success {
        lossy_text(stdout)
    } else {
        String::new()
    }
}

} // verus!

//! The exchange with the generation server, reduced to its decisions.
//!
//! A run submits a job over HTTP, listens on a WebSocket until a status
//! message says the job finished, reads the job's recorded outputs, and
//! fetches each output file over HTTP. The functions here build the
//! addresses and say, for each incoming message and each recorded output,
//! what to do next; the sockets themselves live outside the library.

use vstd::prelude::*;

verus! {

/// Where the generation server listens by default.
pub fn default_server_address() -> (r: &'static str)
    ensures
        r@ == "127.0.0.1:8188"@,
{
    "127.0.0.1:8188"
}

/// The WebSocket address a client with the given id listens on.
pub fn ws_url(server: &str, client_id: &str) -> (r: String)
    ensures
        r@ == "ws://"@ + server@ + "/ws?clientId="@ + client_id@,
{
    let mut r = String::from_str("ws://");
    r.append(server);
    r.append("/ws?clientId=");
    r.append(client_id);
    proof {
        assert(r@ =~= "ws://"@ + server@ + "/ws?clientId="@ + client_id@);
    }
    r
}

/// Where jobs are submitted.
pub fn prompt_url(server: &str) -> (r: String)
    ensures
        r@ == "http://"@ + server@ + "/prompt"@,
{
    let mut r = String::from_str("http://");
    r.append(server);
    r.append("/prompt");
    proof {
        assert(r@ =~= "http://"@ + server@ + "/prompt"@);
    }
    r
}

/// Where output files are fetched from.
pub fn view_url(server: &str) -> (r: String)
    ensures
        r@ == "http://"@ + server@ + "/view"@,
{
    let mut r = String::from_str("http://");
    r.append(server);
    r.append("/view");
    proof {
        assert(r@ =~= "http://"@ + server@ + "/view"@);
    }
    r
}

/// Where a finished job's record is fetched from.
pub fn history_url(server: &str, prompt_id: &str) -> (r: String)
    ensures
        r@ == "http://"@ + server@ + "/history/"@ + prompt_id@,
{
    let mut r = String::from_str("http://");
    r.append(server);
    r.append("/history/");
    r.append(prompt_id);
    proof {
        assert(r@ =~= "http://"@ + server@ + "/history/"@ + prompt_id@);
    }
    r
}

/// Where images are uploaded to.
pub fn upload_url(server: &str) -> (r: String)
    ensures
        r@ == "http://"@ + server@ + "/upload/image"@,
{
    let mut r = String::from_str("http://");
    r.append(server);
    r.append("/upload/image");
    proof {
        assert(r@ =~= "http://"@ + server@ + "/upload/image"@);
    }
    r
}

/// The query parameters that pick one output file.
pub fn view_query(filename: &str, subfolder: &str, folder_type: &str) -> (r: Vec<(String, String)>)
    ensures
        r@.len() == 3,
        r@[0].0@ == "filename"@ && r@[0].1@ == filename@,
        r@[1].0@ == "subfolder"@ && r@[1].1@ == subfolder@,
        r@[2].0@ == "type"@ && r@[2].1@ == folder_type@,
{
    let mut r: Vec<(String, String)> = Vec::new();
    r.push((String::from_str("filename"), String::from_str(filename)));
    r.push((String::from_str("subfolder"), String::from_str(subfolder)));
    r.push((String::from_str("type"), String::from_str(folder_type)));
    r
}

/// The form fields that accompany an image upload: it lands in the
/// server's input folder, at its top level, overwriting an earlier copy.
pub fn upload_form_fields() -> (r: Vec<(String, String)>)
    ensures
        r@.len() == 3,
        r@[0].0@ == "type"@ && r@[0].1@ == "input"@,
        r@[1].0@ == "subfolder"@ && r@[1].1@ == ""@,
        r@[2].0@ == "overwrite"@ && r@[2].1@ == "1"@,
{
    let mut r: Vec<(String, String)> = Vec::new();
    r.push((String::from_str("type"), String::from_str("input")));
    r.push((String::from_str("subfolder"), String::from_str("")));
    r.push((String::from_str("overwrite"), String::from_str("1")));
    r
}

/// A status message read off the WebSocket, reduced to what the wait loop
/// looks at.
#[derive(Debug, Clone, PartialEq)]
pub enum StatusMessage {
    /// The server is executing `node` of the job `prompt_id`; an absent
    /// node means the job finished.
    Executing { node: Option<String>, prompt_id: String },
    /// A progress report for the running node.
    Progress { value: u64, max: u64 },
    /// The server reported an error.
    ExecutionError,
    /// Anything else; the wait loop ignores it.
    Other,
}

/// Whether a status message ends the wait for the job `wanted`: only an
/// executing report with no node and a matching job id does.
pub fn execution_complete(msg: &StatusMessage, wanted: &str) -> (r: bool)
    ensures
        r == (msg matches StatusMessage::Executing { node, prompt_id } && node is None
            && prompt_id@ == wanted@),
{
    match msg {
        StatusMessage::Executing { node, prompt_id } => {
            match node {
                None => crate::text::str_eq(prompt_id.as_str(), wanted),
                Some(_) => false,
            }
        },
        _ => false,
    }
}

/// One output image a finished job recorded: where to fetch it from.
#[derive(Debug, Clone, PartialEq)]
pub struct ImageRef {
    pub filename: String,
    pub subfolder: String,
    pub folder_type: String,
}

/// What one node of a finished job recorded: images and model files.
#[derive(Debug, Clone, PartialEq)]
pub struct NodeOutput {
    pub node_id: String,
    pub images: Vec<ImageRef>,
    pub model_files: Vec<String>,
}

/// Every image the job recorded, node by node in the given order.
pub open spec fn images_of(outputs: Seq<NodeOutput>) -> Seq<ImageRef>
    decreases outputs.len(),
{
    if outputs.len() == 0 {
        Seq::empty()
    } else {
        images_of(outputs.drop_last()) + outputs.last().images@
    }
}

/// The model files recorded by nodes with the given id, in the given
/// order.
pub open spec fn model_files_of(outputs: Seq<NodeOutput>, node_id: Seq<char>) -> Seq<String>
    decreases outputs.len(),
{
    if outputs.len() == 0 {
        Seq::empty()
    } else if outputs.last().node_id@ == node_id {
        model_files_of(outputs.drop_last(), node_id) + outputs.last().model_files@
    } else {
        model_files_of(outputs.drop_last(), node_id)
    }
}

/// The images to fetch for a finished image job: every image of every
/// node, in order.
pub fn images_to_fetch(outputs: &Vec<NodeOutput>) -> (r: Vec<ImageRef>)
    ensures
        r@ == images_of(outputs@),
{
    let mut r: Vec<ImageRef> = Vec::new();
    let mut i: usize = 0;
    while i < outputs.len()
        invariant
            i <= outputs@.len(),
            r@ == images_of(outputs@.take(i as int)),
        decreases outputs@.len() - i,
    {
        let node = &outputs[i];
        let mut j: usize = 0;
        while j < node.images.len()
            invariant
                i < outputs@.len(),
                j <= node.images@.len(),
                node == outputs@[i as int],
                r@ == images_of(outputs@.take(i as int)) + node.images@.take(j as int),
            decreases node.images@.len() - j,
        {
            r.push(
                ImageRef {
                    filename: node.images[j].filename.clone(),
                    subfolder: node.images[j].subfolder.clone(),
                    folder_type: node.images[j].folder_type.clone(),
                },
            );
            proof {
                assert(node.images@.take(j + 1) =~= node.images@.take(j as int).push(
                    node.images@[j as int],
                ));
            }
            j = j + 1;
        }
        proof {
            assert(outputs@.take(i + 1).drop_last() =~= outputs@.take(i as int));
            assert(outputs@.take(i + 1).last() == outputs@[i as int]);
            assert(node.images@.take(node.images@.len() as int) =~= node.images@);
        }
        i = i + 1;
    }
    proof {
        assert(outputs@.take(outputs@.len() as int) =~= outputs@);
    }
    r
}

/// The model files to fetch for a finished model job: those its model
/// node recorded.
pub fn model_files_to_fetch(outputs: &Vec<NodeOutput>, node_id: &str) -> (r: Vec<String>)
    ensures
        r@ == model_files_of(outputs@, node_id@),
{
    let mut r: Vec<String> = Vec::new();
    let mut i: usize = 0;
    while i < outputs.len()
        invariant
            i <= outputs@.len(),
            r@ == model_files_of(outputs@.take(i as int), node_id@),
        decreases outputs@.len() - i,
    {
        let node = &outputs[i];
        if crate::text::str_eq(node.node_id.as_str(), node_id) {
            let mut j: usize = 0;
            while j < node.model_files.len()
                invariant
                    i < outputs@.len(),
                    j <= node.model_files@.len(),
                    node == outputs@[i as int],
                    node.node_id@ == node_id@,
                    r@ == model_files_of(outputs@.take(i as int), node_id@)
                        + node.model_files@.take(j as int),
                decreases node.model_files@.len() - j,
            {
                r.push(node.model_files[j].clone());
                proof {
                    assert(node.model_files@.take(j + 1) =~= node.model_files@.take(j as int).push(
                        node.model_files@[j as int],
                    ));
                }
                j = j + 1;
            }
            proof {
                assert(node.model_files@.take(node.model_files@.len() as int)
                    =~= node.model_files@);
            }
        }
        proof {
            assert(outputs@.take(i + 1).drop_last() =~= outputs@.take(i as int));
            assert(outputs@.take(i + 1).last() == outputs@[i as int]);
        }
        i = i + 1;
    }
    proof {
        assert(outputs@.take(outputs@.len() as int) =~= outputs@);
    }
    r
}

} // verus!

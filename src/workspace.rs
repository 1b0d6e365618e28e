//! Records exchanged with the frontend, and the naming rules of stored workspaces.
use vstd::prelude::*;
use std::collections::HashMap;

verus! {

/// The envelope of every answer to the frontend.
#[derive(Debug)]
pub struct ApiResponse<T> {
    pub status: String,
    pub message: Option<String>,
    pub data: Option<T>,
}

#[derive(Debug, Clone, PartialEq, Eq)]
pub struct ErrorResponse {
    pub error_type: String,
    pub message: String,
}

/// The distinct values of each column of an index source.
#[derive(Debug)]
pub struct IndexValues {
    pub columns: HashMap<String, Vec<String>>,
}

#[derive(Debug, Clone, PartialEq, Eq)]
pub struct SheetMeta {
    pub sheet_name: String,
    pub header_row: i32,
}

#[derive(Debug, Clone, PartialEq, Eq)]
pub struct FileMeta {
    pub id: String,
    pub name: String,
    pub path: String,
    pub sheet_metas: Vec<SheetMeta>,
}

/// The kinds of pipeline node.
#[derive(Debug, Clone, Copy, PartialEq, Eq)]
pub enum NodeType {
    IndexSource,
    SheetSelector,
    RowFilter,
    RowLookup,
    Aggregator,
    Output,
}

#[derive(Debug, Clone, PartialEq, Eq)]
pub struct FlowEdge {
    pub id: String,
    pub source: String,
    pub target: String,
    pub source_handle: Option<String>,
    pub target_handle: Option<String>,
}

/// A stored workspace as listed: its id and display name.
#[derive(Debug, Clone, PartialEq, Eq)]
pub struct WorkspaceSummary {
    pub id: String,
    pub name: String,
}

/// The rules by which workspaces are stored: one `<id>.json` file each.
#[derive(Debug)]
pub struct WorkspaceService;

pub open spec fn node_tag_spec(t: NodeType) -> Seq<char> {
    match t {
        NodeType::IndexSource => "indexSource"@,
        NodeType::SheetSelector => "sheetSelector"@,
        NodeType::RowFilter => "rowFilter"@,
        NodeType::RowLookup => "rowLookup"@,
        NodeType::Aggregator => "aggregator"@,
        NodeType::Output => "output"@,
    }
}

impl NodeType {
    /// The `nodeType` tag that the frontend writes for this kind.
    pub fn tag(&self) -> (r: String)
        ensures
            r@ == node_tag_spec(*self),
    {
        match self {
            NodeType::IndexSource => String::from_str("indexSource"),
            NodeType::SheetSelector => String::from_str("sheetSelector"),
            NodeType::RowFilter => String::from_str("rowFilter"),
            NodeType::RowLookup => String::from_str("rowLookup"),
            NodeType::Aggregator => String::from_str("aggregator"),
            NodeType::Output => String::from_str("output"),
        }
    }
}

impl<T> ApiResponse<T> {
    pub fn success(data: T) -> (r: Self)
        ensures
            r.status@ == "success"@,
            r.message is None,
            r.data == Some(data),
    {
        ApiResponse { status: String::from_str("success"), message: None, data: Some(data) }
    }

    pub fn error(message: String) -> (r: Self)
        ensures
            r.status@ == "error"@,
            r.message == Some(message),
            r.data is None,
    {
        ApiResponse { status: String::from_str("error"), message: Some(message), data: None }
    }
}

impl WorkspaceService {
    /// `<id>.json`: the file that holds a workspace.
    pub fn file_name(workspace_id: &str) -> (r: String)
        ensures
            r@ == workspace_id@ + ".json"@,
    {
        String::from_str(workspace_id).concat(".json")
    }

    /// A workspace is saved only under the id it carries.
    pub fn check_save_id(config_id: &String, workspace_id: &String) -> (r: Result<(), ErrorResponse>)
        ensures
            r is Ok <==> config_id@ == workspace_id@,
            r is Err ==> r->Err_0.error_type@ == "IDMismatch"@ && r->Err_0.message@
                == "Workspace ID in config ("@ + config_id@ + ") does not match save ID ("@
                + workspace_id@ + ")."@,
    {
        if *config_id == *workspace_id {
            Ok(())
        } else {
            let message = String::from_str("Workspace ID in config (").concat(
                config_id.as_str(),
            ).concat(") does not match save ID (").concat(workspace_id.as_str()).concat(").");
            Err(ErrorResponse { error_type: String::from_str("IDMismatch"), message })
        }
    }

    /// A stored file is listed only when the id inside it matches its file stem.
    pub fn summary_for(config_id: String, name: String, file_stem: Option<String>) -> (r: Option<
        WorkspaceSummary,
    >)
        ensures
            r is Some <==> (file_stem is Some && file_stem->0@ == config_id@),
            r is Some ==> r->0 == (WorkspaceSummary { id: config_id, name }),
    {
        match file_stem {
            Some(stem) => if stem == config_id {
                Some(WorkspaceSummary { id: config_id, name })
            } else {
                None
            },
            None => None,
        }
    }
}

} // verus!

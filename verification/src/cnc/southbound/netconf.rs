//! What the controller writes into the YANG data of a Bridge and what it reads out of it.
//!
//! The data tree itself is kept by the YANG library. The controller says which changes make
//! a port's gate parameters what a schedule asks for, and it takes apart what was looked
//! up in a tree that a Bridge sent.

use crate::cnc::southbound::text::{
    decimal, decimal_text, fill, filled, join, signed_decimal, signed_decimal_text, truth,
    truth_text,
};
use crate::cnc::search::{first_index, lemma_first_index_is};
use crate::cnc::southbound::types::{SwitchParameters, SwitchParametersModel, YangPaths};
use crate::cnc::southbound::xpath::{
    extract_interface_name_from_xpath, extract_last_node_name_from_xpath, interface_name,
    last_node_name, parse_predicates, predicates,
};
use crate::cnc::types::lldp_types::{
    ManagementAddress, ManagementAddressModel, RemoteSystemsData, RemoteSystemsDataModel,
};
use crate::cnc::types::sched_types::{GateControlEntry, GateControlOperation};
use crate::cnc::types::scheduling::{PortConfiguration, PortConfigurationModel};
use crate::cnc::types::topology::{Port, PortModel};
use crate::cnc::types::tsn_types::BridgePortDelays;
use vstd::prelude::*;
use vstd::string::*;

verus! {

/// The value of a leaf of a YANG data tree, by its type. Types without a case of their own
/// come as the text that writes the value.
#[derive(Debug)]
pub enum DataValue {
    Uint8(u8),
    Uint16(u16),
    Uint32(u32),
    Uint64(u64),
    Bool(bool),
    Empty,
    Int8(i8),
    Int16(i16),
    Int32(i32),
    Int64(i64),
    Other(String),
}

/// What a [`DataValue`] holds, as a mathematical value.
pub enum DataValueModel {
    Uint8(u8),
    Uint16(u16),
    Uint32(u32),
    Uint64(u64),
    Bool(bool),
    Empty,
    Int8(i8),
    Int16(i16),
    Int32(i32),
    Int64(i64),
    Other(Seq<char>),
}

impl DeepView for DataValue {
    type V = DataValueModel;

    open spec fn deep_view(&self) -> DataValueModel {
        match self {
            DataValue::Uint8(x) => DataValueModel::Uint8(x.deep_view()),
            DataValue::Uint16(x) => DataValueModel::Uint16(x.deep_view()),
            DataValue::Uint32(x) => DataValueModel::Uint32(x.deep_view()),
            DataValue::Uint64(x) => DataValueModel::Uint64(x.deep_view()),
            DataValue::Bool(x) => DataValueModel::Bool(x.deep_view()),
            DataValue::Empty => DataValueModel::Empty,
            DataValue::Int8(x) => DataValueModel::Int8(x.deep_view()),
            DataValue::Int16(x) => DataValueModel::Int16(x.deep_view()),
            DataValue::Int32(x) => DataValueModel::Int32(x.deep_view()),
            DataValue::Int64(x) => DataValueModel::Int64(x.deep_view()),
            DataValue::Other(x) => DataValueModel::Other(x.deep_view()),
        }
    }
}

impl Clone for DataValue {
    fn clone(&self) -> (r: Self)
        ensures
            r.deep_view() == self.deep_view(),
    {
        match self {
            DataValue::Uint8(x) => DataValue::Uint8(*x),
            DataValue::Uint16(x) => DataValue::Uint16(*x),
            DataValue::Uint32(x) => DataValue::Uint32(*x),
            DataValue::Uint64(x) => DataValue::Uint64(*x),
            DataValue::Bool(x) => DataValue::Bool(*x),
            DataValue::Empty => DataValue::Empty,
            DataValue::Int8(x) => DataValue::Int8(*x),
            DataValue::Int16(x) => DataValue::Int16(*x),
            DataValue::Int32(x) => DataValue::Int32(*x),
            DataValue::Int64(x) => DataValue::Int64(*x),
            DataValue::Other(x) => DataValue::Other(x.clone()),
        }
    }
}

/// What was found below a node at one path.
#[derive(Debug)]
pub struct DataLeaf {
    /// The path that was looked up, from the node.
    pub path: String,
    /// The value of what was found; `None` where it is not a leaf.
    pub value: Option<DataValue>,
}

/// What a [`DataLeaf`] holds, as a mathematical value.
pub struct DataLeafModel {
    pub path: Seq<char>,
    pub value: Option<DataValueModel>,
}

impl DeepView for DataLeaf {
    type V = DataLeafModel;

    open spec fn deep_view(&self) -> DataLeafModel {
        DataLeafModel {
            path: self.path.deep_view(),
            value: self.value.deep_view(),
        }
    }
}

impl Clone for DataLeaf {
    fn clone(&self) -> (r: Self)
        ensures
            r.deep_view() == self.deep_view(),
    {
        let path = self.path.clone();
        let value = self.value.clone();
        DataLeaf { path, value }
    }
}

/// An entry of a list below a node.
#[derive(Debug)]
pub struct DataRecord {
    /// The path of the entry from the root of the tree, with the keys of the entry in its
    /// predicates.
    pub path: String,
    /// What was found below the entry.
    pub leaves: Vec<DataLeaf>,
}

/// What a [`DataRecord`] holds, as a mathematical value.
pub struct DataRecordModel {
    pub path: Seq<char>,
    pub leaves: Seq<DataLeafModel>,
}

impl DeepView for DataRecord {
    type V = DataRecordModel;

    open spec fn deep_view(&self) -> DataRecordModel {
        DataRecordModel {
            path: self.path.deep_view(),
            leaves: self.leaves.deep_view(),
        }
    }
}

impl Clone for DataRecord {
    fn clone(&self) -> (r: Self)
        ensures
            r.deep_view() == self.deep_view(),
    {
        let path = self.path.clone();
        let leaves = self.leaves.clone();
        proof {
            assert(leaves.deep_view() =~= self.leaves.deep_view());
        }
        DataRecord { path, leaves }
    }
}

/// The entries that were found below a node at one path.
#[derive(Debug)]
pub struct DataList {
    /// The path that was looked up, from the node.
    pub path: String,
    pub records: Vec<DataRecord>,
}

/// What a [`DataList`] holds, as a mathematical value.
pub struct DataListModel {
    pub path: Seq<char>,
    pub records: Seq<DataRecordModel>,
}

impl DeepView for DataList {
    type V = DataListModel;

    open spec fn deep_view(&self) -> DataListModel {
        DataListModel {
            path: self.path.deep_view(),
            records: self.records.deep_view(),
        }
    }
}

impl Clone for DataList {
    fn clone(&self) -> (r: Self)
        ensures
            r.deep_view() == self.deep_view(),
    {
        let path = self.path.clone();
        let records = self.records.clone();
        proof {
            assert(records.deep_view() =~= self.records.deep_view());
        }
        DataList { path, records }
    }
}

/// A node of a YANG data tree, with what the controller looked up below it.
#[derive(Debug)]
pub struct DataNode {
    /// The path of the node from the root of the tree.
    pub path: String,
    /// What was found at the paths that were looked up. A path at which nothing was found has
    /// no entry.
    pub leaves: Vec<DataLeaf>,
    pub lists: Vec<DataList>,
}

/// What a [`DataNode`] holds, as a mathematical value.
pub struct DataNodeModel {
    pub path: Seq<char>,
    pub leaves: Seq<DataLeafModel>,
    pub lists: Seq<DataListModel>,
}

impl DeepView for DataNode {
    type V = DataNodeModel;

    open spec fn deep_view(&self) -> DataNodeModel {
        DataNodeModel {
            path: self.path.deep_view(),
            leaves: self.leaves.deep_view(),
            lists: self.lists.deep_view(),
        }
    }
}

impl Clone for DataNode {
    fn clone(&self) -> (r: Self)
        ensures
            r.deep_view() == self.deep_view(),
    {
        let path = self.path.clone();
        let leaves = self.leaves.clone();
        let lists = self.lists.clone();
        proof {
            assert(leaves.deep_view() =~= self.leaves.deep_view());
            assert(lists.deep_view() =~= self.lists.deep_view());
        }
        DataNode { path, leaves, lists }
    }
}

/// Which entries to look up below a node, and what to look up below each.
#[derive(Debug)]
pub struct ListQuery {
    pub path: String,
    pub leaves: Vec<String>,
}

/// What a [`ListQuery`] holds, as a mathematical value.
pub struct ListQueryModel {
    pub path: Seq<char>,
    pub leaves: Seq<Seq<char>>,
}

impl DeepView for ListQuery {
    type V = ListQueryModel;

    open spec fn deep_view(&self) -> ListQueryModel {
        ListQueryModel {
            path: self.path.deep_view(),
            leaves: self.leaves.deep_view(),
        }
    }
}

impl Clone for ListQuery {
    fn clone(&self) -> (r: Self)
        ensures
            r.deep_view() == self.deep_view(),
    {
        let path = self.path.clone();
        let leaves = self.leaves.clone();
        proof {
            assert(leaves.deep_view() =~= self.leaves.deep_view());
        }
        ListQuery { path, leaves }
    }
}

/// What to look up in the data of a Bridge: the nodes at `root`, and below each of them the
/// leaves and the lists.
#[derive(Debug)]
pub struct TreeQuery {
    /// The path of the nodes from the root of the tree.
    pub root: String,
    pub leaves: Vec<String>,
    pub lists: Vec<ListQuery>,
}

/// What a [`TreeQuery`] holds, as a mathematical value.
pub struct TreeQueryModel {
    pub root: Seq<char>,
    pub leaves: Seq<Seq<char>>,
    pub lists: Seq<ListQueryModel>,
}

impl DeepView for TreeQuery {
    type V = TreeQueryModel;

    open spec fn deep_view(&self) -> TreeQueryModel {
        TreeQueryModel {
            root: self.root.deep_view(),
            leaves: self.leaves.deep_view(),
            lists: self.lists.deep_view(),
        }
    }
}

impl Clone for TreeQuery {
    fn clone(&self) -> (r: Self)
        ensures
            r.deep_view() == self.deep_view(),
    {
        let root = self.root.clone();
        let leaves = self.leaves.clone();
        let lists = self.lists.clone();
        proof {
            assert(leaves.deep_view() =~= self.leaves.deep_view());
            assert(lists.deep_view() =~= self.lists.deep_view());
        }
        TreeQuery { root, leaves, lists }
    }
}

/// One change to a YANG data tree.
#[derive(Debug)]
pub enum TreeEdit {
    /// Create the node at `path`, with the nodes above it where they are missing, and give it
    /// the value `value`; a node that exists takes the value.
    Put { path: String, value: String },
    /// Remove the node at `path` with everything below it, if it exists.
    Remove { path: String },
}

/// What a [`TreeEdit`] holds, as a mathematical value.
pub enum TreeEditModel {
    Put { path: Seq<char>, value: Seq<char> },
    Remove { path: Seq<char> },
}

impl DeepView for TreeEdit {
    type V = TreeEditModel;

    open spec fn deep_view(&self) -> TreeEditModel {
        match self {
            TreeEdit::Put { path, value } => TreeEditModel::Put { path: path@, value: value@ },
            TreeEdit::Remove { path } => TreeEditModel::Remove { path: path@ },
        }
    }
}

impl Clone for TreeEdit {
    fn clone(&self) -> (r: Self)
        ensures
            r.deep_view() == self.deep_view(),
    {
        match self {
            TreeEdit::Put { path, value } => {
                TreeEdit::Put { path: path.clone(), value: value.clone() }
            },
            TreeEdit::Remove { path } => TreeEdit::Remove { path: path.clone() },
        }
    }
}

/// The name of a gate operation in the scheduled-traffic module.
pub open spec fn operation_text(operation: GateControlOperation) -> Seq<char> {
    match operation {
        GateControlOperation::SetGateStates => "set-gate-states"@,
        GateControlOperation::SetAndHoldMAC => "set-and-hold-mac"@,
        GateControlOperation::SetAndReleaseMAC => "set-and-release-mac"@,
    }
}

/// The path of a port's gate parameters, for the port `name`: a slash, the path of the
/// interface with `name` in place of `{}`, a slash, and the path that leads from an interface
/// to its gate parameters. With the paths of the reference Bridge that is
/// `/ietf-interfaces:interfaces/interface[name='<port>']/ieee802-dot1q-sched:gate-parameters`.
pub open spec fn port_path(params: SwitchParametersModel, name: Seq<char>) -> Seq<char> {
    seq!['/'] + filled(params.interfaces_by_name, name) + seq!['/'] + params.gate_parameters
}

/// The edit that sets the node `path` below `port_xpath` to `value`.
pub open spec fn set_below(
    port_xpath: Seq<char>,
    path: Seq<char>,
    value: Seq<char>,
) -> TreeEditModel {
    TreeEditModel::Put { path: port_xpath + seq!['/'] + path, value }
}

/// The path of the entry `index` of the control list, below a port's gate parameters.
pub open spec fn entry_path(params: SwitchParametersModel, index: nat) -> Seq<char> {
    filled(params.admin_control_list_by_index, decimal(index))
}

/// The edits that write the entry `index` of the control list: its operation, its gate states
/// and its time interval.
pub open spec fn entry_edits(
    params: SwitchParametersModel,
    port_xpath: Seq<char>,
    index: nat,
    entry: GateControlEntry,
) -> Seq<TreeEditModel> {
    let prefix = entry_path(params, index) + seq!['/'];
    seq![
        set_below(port_xpath, prefix + params.operation_name, operation_text(entry.operation_name)),
        set_below(
            port_xpath,
            prefix + params.sgs_params_gate_states_value,
            decimal(entry.gate_state_value as nat),
        ),
        set_below(
            port_xpath,
            prefix + params.sgs_params_time_interval_value,
            decimal(entry.time_interval_value as nat),
        ),
    ]
}

/// The edits that write a control list, entry by entry.
pub open spec fn control_list_edits(
    params: SwitchParametersModel,
    port_xpath: Seq<char>,
    list: Seq<GateControlEntry>,
) -> Seq<TreeEditModel>
    decreases list.len(),
{
    if list.len() == 0 {
        Seq::empty()
    } else {
        control_list_edits(params, port_xpath, list.drop_last()) + entry_edits(
            params,
            port_xpath,
            (list.len() - 1) as nat,
            list.last(),
        )
    }
}

/// The edits that make a port's gate parameters what `port` says, in the order in which
/// they are made: whether the gates are enabled, their states, the control list, then,
/// for an empty list, the removal of the list from the tree, the length of the list, the cycle
/// time, the base time, the cycle time extension, and the request to take the configuration
/// into operation.
pub open spec fn gate_parameter_edits(
    params: SwitchParametersModel,
    port: PortConfigurationModel,
) -> Seq<TreeEditModel> {
    let at = port_path(params, port.name);
    let config = port.config;
    seq![
        set_below(at, params.gate_enabled, truth(config.gate_enable)),
        set_below(at, params.admin_gate_states, decimal(config.admin_gate_states as nat)),
    ] + control_list_edits(params, at, config.admin_control_list) + (if config.admin_control_list.len()
        == 0 {
        seq![TreeEditModel::Remove { path: at + seq!['/'] + params.admin_control_list }]
    } else {
        Seq::empty()
    }) + seq![
        set_below(
            at,
            params.admin_control_list_length,
            decimal(config.admin_control_list.len()),
        ),
        set_below(
            at,
            params.admin_cycle_time_numerator,
            signed_decimal(config.admin_cycle_time.0 as int),
        ),
        set_below(
            at,
            params.admin_cycle_time_denominator,
            signed_decimal(config.admin_cycle_time.1 as int),
        ),
        set_below(at, params.admin_base_time_seconds, decimal(config.admin_base_time.0 as nat)),
        set_below(
            at,
            params.admin_base_time_fractional_seconds,
            decimal(config.admin_base_time.1 as nat),
        ),
        set_below(
            at,
            params.admin_cycle_time_extension,
            decimal(config.admin_cycle_time_extension as nat),
        ),
        set_below(at, params.config_change, truth(true)),
    ]
}

/// Writes the name of a gate operation.
fn operation_name_text(operation: GateControlOperation) -> (r: String)
    ensures
        r@ == operation_text(operation),
{
    match operation {
        GateControlOperation::SetGateStates => String::from_str("set-gate-states"),
        GateControlOperation::SetAndHoldMAC => String::from_str("set-and-hold-mac"),
        GateControlOperation::SetAndReleaseMAC => String::from_str("set-and-release-mac"),
    }
}

/// Adds to `dtree` the edit that sets the node `path` below `port_xpath` to `value`.
pub fn put_gate_parameters_in_dtree(
    dtree: &mut Vec<TreeEdit>,
    port_xpath: &String,
    path: &str,
    value: &str,
)
    ensures
        final(dtree).deep_view() == old(dtree).deep_view().push(
            set_below(port_xpath@, path@, value@),
        ),
{
    let ghost before = dtree.deep_view();
    let edit = TreeEdit::Put {
        path: join(port_xpath.as_str(), path),
        value: String::from_str(value),
    };
    dtree.push(edit);
    proof {
        assert(dtree.deep_view() =~= before.push(set_below(port_xpath@, path@, value@)));
    }
}

/// Adds to `dtree` the edits that make a port's gate parameters what `port_configuration`
/// says. The paths are those of `yang_paths`.
pub fn put_configurations_in_dtree(
    dtree: &mut Vec<TreeEdit>,
    yang_paths: &YangPaths,
    port_configuration: &PortConfiguration,
)
    ensures
        final(dtree).deep_view() == old(dtree).deep_view() + gate_parameter_edits(
            yang_paths.deep_view().params,
            port_configuration.deep_view(),
        ),
{
    let params = &yang_paths.params;
    let config = &port_configuration.config;
    let ghost p = yang_paths.deep_view().params;
    let ghost start = dtree.deep_view();
    let ghost list = config.admin_control_list.deep_view();

    proof {
        reveal_strlit("/");
    }
    let mut port_xpath = String::from_str("/");
    port_xpath.append(
        fill(params.interfaces_by_name.as_str(), port_configuration.name.as_str()).as_str(),
    );
    port_xpath.append("/");
    port_xpath.append(params.gate_parameters.as_str());
    let ghost at = port_path(p, port_configuration.name@);
    proof {
        assert(port_xpath@ =~= at);
    }

    put_gate_parameters_in_dtree(
        dtree,
        &port_xpath,
        params.gate_enabled.as_str(),
        truth_text(config.gate_enable).as_str(),
    );
    put_gate_parameters_in_dtree(
        dtree,
        &port_xpath,
        params.admin_gate_states.as_str(),
        decimal_text(config.admin_gate_states as u64).as_str(),
    );
    let ghost head = seq![
        set_below(at, p.gate_enabled, truth(config.gate_enable)),
        set_below(at, p.admin_gate_states, decimal(config.admin_gate_states as nat)),
    ];
    proof {
        assert(dtree.deep_view() =~= start + head + control_list_edits(p, at, list.take(0)));
    }

    let mut i: usize = 0;
    while i < config.admin_control_list.len()
        invariant
            i <= config.admin_control_list.len(),
            list == config.admin_control_list.deep_view(),
            p == yang_paths.deep_view().params,
            params == &yang_paths.params,
            port_xpath@ == at,
            dtree.deep_view() == start + head + control_list_edits(p, at, list.take(i as int)),
        decreases config.admin_control_list.len() - i,
    {
        let entry = config.admin_control_list[i];
        let ghost before = dtree.deep_view();
        let mut prefix = fill(
            params.admin_control_list_by_index.as_str(),
            decimal_text(i as u64).as_str(),
        );
        prefix.append("/");
        proof {
            reveal_strlit("/");
            assert(prefix@ =~= entry_path(p, i as nat) + seq!['/']);
        }
        let mut operation_path = prefix.clone();
        operation_path.append(params.operation_name.as_str());
        put_gate_parameters_in_dtree(
            dtree,
            &port_xpath,
            operation_path.as_str(),
            operation_name_text(entry.operation_name).as_str(),
        );
        let mut states_path = prefix.clone();
        states_path.append(params.sgs_params_gate_states_value.as_str());
        put_gate_parameters_in_dtree(
            dtree,
            &port_xpath,
            states_path.as_str(),
            decimal_text(entry.gate_state_value as u64).as_str(),
        );
        let mut interval_path = prefix.clone();
        interval_path.append(params.sgs_params_time_interval_value.as_str());
        put_gate_parameters_in_dtree(
            dtree,
            &port_xpath,
            interval_path.as_str(),
            decimal_text(entry.time_interval_value as u64).as_str(),
        );
        proof {
            assert(list.take(i + 1).drop_last() =~= list.take(i as int));
            assert(list.take(i + 1).last() == list[i as int]);
            assert(list[i as int] == entry);
            assert(dtree.deep_view() =~= before + entry_edits(p, at, i as nat, entry));
            assert(dtree.deep_view()
                =~= start + head + control_list_edits(p, at, list.take(i + 1)));
        }
        i += 1;
    }
    proof {
        assert(list.take(i as int) =~= list);
    }
    let ghost body = start + head + control_list_edits(p, at, list);

    if config.admin_control_list.len() == 0 {
        let ghost before = dtree.deep_view();
        dtree.push(TreeEdit::Remove {
            path: join(port_xpath.as_str(), params.admin_control_list.as_str()),
        });
        proof {
            assert(dtree.deep_view() =~= before.push(
                TreeEditModel::Remove { path: at + seq!['/'] + p.admin_control_list },
            ));
        }
    }
    let ghost removal = if list.len() == 0 {
        seq![TreeEditModel::Remove { path: at + seq!['/'] + p.admin_control_list }]
    } else {
        Seq::empty()
    };
    proof {
        assert(dtree.deep_view() =~= body + removal);
    }

    put_gate_parameters_in_dtree(
        dtree,
        &port_xpath,
        params.admin_control_list_length.as_str(),
        decimal_text(config.admin_control_list.len() as u64).as_str(),
    );
    put_gate_parameters_in_dtree(
        dtree,
        &port_xpath,
        params.admin_cycle_time_numerator.as_str(),
        signed_decimal_text(config.admin_cycle_time.0).as_str(),
    );
    put_gate_parameters_in_dtree(
        dtree,
        &port_xpath,
        params.admin_cycle_time_denominator.as_str(),
        signed_decimal_text(config.admin_cycle_time.1).as_str(),
    );
    put_gate_parameters_in_dtree(
        dtree,
        &port_xpath,
        params.admin_base_time_seconds.as_str(),
        decimal_text(config.admin_base_time.0).as_str(),
    );
    put_gate_parameters_in_dtree(
        dtree,
        &port_xpath,
        params.admin_base_time_fractional_seconds.as_str(),
        decimal_text(config.admin_base_time.1 as u64).as_str(),
    );
    put_gate_parameters_in_dtree(
        dtree,
        &port_xpath,
        params.admin_cycle_time_extension.as_str(),
        decimal_text(config.admin_cycle_time_extension as u64).as_str(),
    );
    put_gate_parameters_in_dtree(
        dtree,
        &port_xpath,
        params.config_change.as_str(),
        truth_text(true).as_str(),
    );
    proof {
        assert(dtree.deep_view()
            =~= start + gate_parameter_edits(p, port_configuration.deep_view()));
    }
}

/// Whether a leaf was looked up at the path `path`.
pub open spec fn is_leaf(path: Seq<char>) -> spec_fn(DataLeafModel) -> bool {
    |l: DataLeafModel| l.path == path
}

/// The value that was found at the path `path`: that of the first leaf looked up at it.
/// Nothing where nothing was found there, or where what was found has no value.
pub open spec fn leaf_value(leaves: Seq<DataLeafModel>, path: Seq<char>) -> Option<DataValueModel> {
    let i = first_index(leaves, is_leaf(path));
    if 0 <= i < leaves.len() {
        leaves[i].value
    } else {
        None
    }
}

/// The text that was found at `path`, or the empty text where none was found.
pub open spec fn text_at(leaves: Seq<DataLeafModel>, path: Seq<char>) -> Seq<char> {
    match leaf_value(leaves, path) {
        Some(DataValueModel::Other(v)) => v,
        _ => Seq::empty(),
    }
}

/// The 32-bit number that was found at `path`, or 0 where none was found.
pub open spec fn u32_at(leaves: Seq<DataLeafModel>, path: Seq<char>) -> u32 {
    match leaf_value(leaves, path) {
        Some(DataValueModel::Uint32(v)) => v,
        _ => 0,
    }
}

/// The 64-bit number that was found at `path`, or 0 where none was found.
pub open spec fn u64_at(leaves: Seq<DataLeafModel>, path: Seq<char>) -> u64 {
    match leaf_value(leaves, path) {
        Some(DataValueModel::Uint64(v)) => v,
        _ => 0,
    }
}

/// Whether a list was looked up at the path `path`.
pub open spec fn is_list(path: Seq<char>) -> spec_fn(DataListModel) -> bool {
    |l: DataListModel| l.path == path
}

/// The entries that were found at the path `path`: those of the first list looked up at it.
pub open spec fn records_at(lists: Seq<DataListModel>, path: Seq<char>) -> Seq<DataRecordModel> {
    let i = first_index(lists, is_list(path));
    if 0 <= i < lists.len() {
        lists[i].records
    } else {
        Seq::empty()
    }
}

/// Looks up the value that was found at `path`.
fn find_leaf<'a>(leaves: &'a Vec<DataLeaf>, path: &String) -> (r: Option<&'a DataValue>)
    ensures
        r.deep_view() == leaf_value(leaves.deep_view(), path@),
{
    let mut i: usize = 0;
    while i < leaves.len()
        invariant
            i <= leaves.len(),
            forall|j: int| 0 <= j < i ==> leaves.deep_view()[j].path != path@,
        decreases leaves.len() - i,
    {
        if leaves[i].path == *path {
            proof {
                lemma_first_index_is(leaves.deep_view(), is_leaf(path@), i as int);
            }
            return match &leaves[i].value {
                Some(v) => Some(v),
                None => None,
            };
        }
        i += 1;
    }
    proof {
        lemma_first_index_is(leaves.deep_view(), is_leaf(path@), i as int);
    }
    None
}

/// Reads the text that was found at `path`.
fn read_text(leaves: &Vec<DataLeaf>, path: &String) -> (r: String)
    ensures
        r@ == text_at(leaves.deep_view(), path@),
{
    match find_leaf(leaves, path) {
        Some(DataValue::Other(v)) => v.clone(),
        _ => String::new(),
    }
}

/// Reads the 32-bit number that was found at `path`.
fn read_u32(leaves: &Vec<DataLeaf>, path: &String) -> (r: u32)
    ensures
        r == u32_at(leaves.deep_view(), path@),
{
    match find_leaf(leaves, path) {
        Some(DataValue::Uint32(v)) => *v,
        _ => 0,
    }
}

/// Reads the 64-bit number that was found at `path`.
fn read_u64(leaves: &Vec<DataLeaf>, path: &String) -> (r: u64)
    ensures
        r == u64_at(leaves.deep_view(), path@),
{
    match find_leaf(leaves, path) {
        Some(DataValue::Uint64(v)) => *v,
        _ => 0,
    }
}

/// Looks up the entries that were found at `path`.
fn find_records<'a>(lists: &'a Vec<DataList>, path: &String) -> (r: Option<&'a Vec<DataRecord>>)
    ensures
        match r {
            Some(records) => records.deep_view() == records_at(lists.deep_view(), path@),
            None => records_at(lists.deep_view(), path@) == Seq::<DataRecordModel>::empty(),
        },
{
    let mut i: usize = 0;
    while i < lists.len()
        invariant
            i <= lists.len(),
            forall|j: int| 0 <= j < i ==> lists.deep_view()[j].path != path@,
        decreases lists.len() - i,
    {
        if lists[i].path == *path {
            proof {
                lemma_first_index_is(lists.deep_view(), is_list(path@), i as int);
            }
            return Some(&lists[i].records);
        }
        i += 1;
    }
    proof {
        lemma_first_index_is(lists.deep_view(), is_list(path@), i as int);
    }
    None
}

/// A management address after the key `predicate.0` was read with the value `predicate.1`:
/// the key of the encoding sets the encoding, the key of the address sets the address, and any
/// other key is passed over.
pub open spec fn with_predicate(
    params: SwitchParametersModel,
    address: ManagementAddressModel,
    predicate: (Seq<char>, Seq<char>),
) -> ManagementAddressModel {
    if predicate.0 == params.attrib_name_address_subtype {
        ManagementAddressModel { address_subtype: predicate.1, ..address }
    } else if predicate.0 == params.attrib_name_address {
        ManagementAddressModel { address: predicate.1, ..address }
    } else {
        address
    }
}

/// A management address after the keys of `list` were read in their order.
pub open spec fn with_predicates(
    params: SwitchParametersModel,
    address: ManagementAddressModel,
    list: Seq<(Seq<char>, Seq<char>)>,
) -> ManagementAddressModel
    decreases list.len(),
{
    if list.len() == 0 {
        address
    } else {
        with_predicate(params, with_predicates(params, address, list.drop_last()), list.last())
    }
}

/// With the paths of the reference Bridge, the key `address-type` gives the kind of a
/// management address and the key `address` the address itself.
pub proof fn lemma_reference_address_keys(kind: Seq<char>, address: Seq<char>)
    ensures
        with_predicates(
            SwitchParameters::br_paths(),
            no_address(),
            seq![("address-type"@, kind), ("address"@, address)],
        ) == (ManagementAddressModel { address_subtype: kind, address, ..no_address() }),
{
    reveal_strlit("address-type");
    reveal_strlit("address");
    let params = SwitchParameters::br_paths();
    let list = seq![("address-type"@, kind), ("address"@, address)];
    assert("address-type"@.len() != "address"@.len());
    assert(list.drop_last() =~= seq![("address-type"@, kind)]);
    assert(list.drop_last().drop_last() =~= Seq::<(Seq<char>, Seq<char>)>::empty());
    assert(with_predicates(params, no_address(), list.drop_last().drop_last()) == no_address());
    assert(with_predicates(params, no_address(), list.drop_last()) == with_predicate(
        params,
        no_address(),
        ("address-type"@, kind),
    ));
}

/// A management address about which nothing is known.
pub open spec fn no_address() -> ManagementAddressModel {
    ManagementAddressModel {
        address_subtype: Seq::empty(),
        address: Seq::empty(),
        if_subtype: Seq::empty(),
        if_id: 0,
    }
}

/// The management address that an entry of the list of management addresses stands for. It
/// is read from the keys in the path of the entry, not from what is below it.
pub open spec fn management_address_of(params: SwitchParametersModel) -> spec_fn(
    DataRecordModel,
) -> ManagementAddressModel {
    |r: DataRecordModel| with_predicates(params, no_address(), predicates(last_node_name(r.path)))
}

/// Reads the management address that `record` stands for.
fn read_management_address(record: &DataRecord, params: &SwitchParameters) -> (r: ManagementAddress)
    ensures
        r.deep_view() == management_address_of(params.deep_view())(record.deep_view()),
{
    let list = parse_predicates(extract_last_node_name_from_xpath(&record.path));
    let ghost all = list.deep_view();
    let mut address = ManagementAddress::new();
    let mut i: usize = 0;
    proof {
        assert(all.take(0) =~= Seq::<(Seq<char>, Seq<char>)>::empty());
    }
    while i < list.len()
        invariant
            i <= list.len(),
            all == list.deep_view(),
            address.deep_view() == with_predicates(params.deep_view(), no_address(), all.take(i as int)),
        decreases list.len() - i,
    {
        proof {
            assert(all.take(i + 1).drop_last() =~= all.take(i as int));
            assert(all.take(i + 1).last() == all[i as int]);
        }
        if list[i].0 == params.attrib_name_address_subtype {
            address.address_subtype = list[i].1.clone();
        } else if list[i].0 == params.attrib_name_address {
            address.address = list[i].1.clone();
        }
        i += 1;
    }
    proof {
        assert(all.take(i as int) =~= all);
    }
    address
}

/// What a node of the list of neighbours says about a neighbour. A value that was not found,
/// or that has another type than the field, leaves the field empty or zero.
pub open spec fn remote_system_of(params: SwitchParametersModel) -> spec_fn(
    DataNodeModel,
) -> RemoteSystemsDataModel {
    |n: DataNodeModel|
        RemoteSystemsDataModel {
            time_mark: u32_at(n.leaves, params.time_mark),
            remote_index: u32_at(n.leaves, params.remote_index),
            chassis_id_subtype: text_at(n.leaves, params.chassis_id_subtype),
            chassis_id: text_at(n.leaves, params.chassis_id),
            port_id_subtype: text_at(n.leaves, params.port_id_subtype),
            port_id: text_at(n.leaves, params.port_id),
            port_desc: text_at(n.leaves, params.port_desc),
            system_name: text_at(n.leaves, params.system_name),
            system_description: text_at(n.leaves, params.system_description),
            system_capabilities_supported: text_at(n.leaves, params.system_capabilities_supported),
            system_capabilities_enabled: text_at(n.leaves, params.system_capabilities_enabled),
            management_address: records_at(n.lists, params.management_address).map_values(
                management_address_of(params),
            ),
            remote_unknown_tlv: Seq::empty(),
            remote_org_defined_info: Seq::empty(),
        }
}

/// Reads what `node` says about a neighbour.
fn read_remote_system(node: &DataNode, params: &SwitchParameters) -> (r: RemoteSystemsData)
    ensures
        r.deep_view() == remote_system_of(params.deep_view())(node.deep_view()),
{
    let ghost f = management_address_of(params.deep_view());
    let mut addresses: Vec<ManagementAddress> = Vec::new();
    match find_records(&node.lists, &params.management_address) {
        Some(records) => {
            let ghost all = records.deep_view();
            let mut i: usize = 0;
            proof {
                assert(addresses.deep_view() =~= all.take(0).map_values(f));
            }
            while i < records.len()
                invariant
                    i <= records.len(),
                    all == records.deep_view(),
                    f == management_address_of(params.deep_view()),
                    addresses.deep_view() == all.take(i as int).map_values(f),
                decreases records.len() - i,
            {
                let ghost before = addresses.deep_view();
                addresses.push(read_management_address(&records[i], params));
                proof {
                    assert(addresses.deep_view() =~= before.push(f(all[i as int])));
                    assert(all.take(i + 1) =~= all.take(i as int).push(all[i as int]));
                    all.take(i as int).lemma_push_map_commute(f, all[i as int]);
                }
                i += 1;
            }
            proof {
                assert(all.take(i as int) =~= all);
            }
        },
        None => {
            proof {
                assert(addresses.deep_view() =~= Seq::<DataRecordModel>::empty().map_values(f));
            }
        },
    }
    let r = RemoteSystemsData {
        time_mark: read_u32(&node.leaves, &params.time_mark),
        remote_index: read_u32(&node.leaves, &params.remote_index),
        chassis_id_subtype: read_text(&node.leaves, &params.chassis_id_subtype),
        chassis_id: read_text(&node.leaves, &params.chassis_id),
        port_id_subtype: read_text(&node.leaves, &params.port_id_subtype),
        port_id: read_text(&node.leaves, &params.port_id),
        port_desc: read_text(&node.leaves, &params.port_desc),
        system_name: read_text(&node.leaves, &params.system_name),
        system_description: read_text(&node.leaves, &params.system_description),
        system_capabilities_supported: read_text(
            &node.leaves,
            &params.system_capabilities_supported,
        ),
        system_capabilities_enabled: read_text(&node.leaves, &params.system_capabilities_enabled),
        management_address: addresses,
        remote_unknown_tlv: Vec::new(),
        remote_org_defined_info: Vec::new(),
    };
    proof {
        assert(r.remote_unknown_tlv.deep_view() =~= Seq::empty());
        assert(r.remote_org_defined_info.deep_view() =~= Seq::empty());
    }
    r
}

/// Takes the neighbours of a Bridge out of what was looked up in its data: one for each node
/// of `dtree`, the nodes of the list of neighbours, in their order.
pub fn extract_remote_systems_data(dtree: &Vec<DataNode>, yang_paths: &YangPaths) -> (r: Vec<
    RemoteSystemsData,
>)
    ensures
        r.deep_view() == dtree.deep_view().map_values(
            remote_system_of(yang_paths.deep_view().params),
        ),
{
    let ghost f = remote_system_of(yang_paths.deep_view().params);
    let ghost all = dtree.deep_view();
    let mut remote_systems: Vec<RemoteSystemsData> = Vec::new();
    let mut i: usize = 0;
    proof {
        assert(remote_systems.deep_view() =~= all.take(0).map_values(f));
    }
    while i < dtree.len()
        invariant
            i <= dtree.len(),
            all == dtree.deep_view(),
            f == remote_system_of(yang_paths.deep_view().params),
            remote_systems.deep_view() == all.take(i as int).map_values(f),
        decreases dtree.len() - i,
    {
        let ghost before = remote_systems.deep_view();
        remote_systems.push(read_remote_system(&dtree[i], &yang_paths.params));
        proof {
            assert(remote_systems.deep_view() =~= before.push(f(all[i as int])));
            assert(all.take(i + 1) =~= all.take(i as int).push(all[i as int]));
            all.take(i as int).lemma_push_map_commute(f, all[i as int]);
        }
        i += 1;
    }
    proof {
        assert(all.take(i as int) =~= all);
    }
    remote_systems
}

/// What an entry of the list of delay records says. A delay that was not found, or that has
/// another type than the field, is zero.
pub open spec fn delays_of(
    params: SwitchParametersModel,
) -> spec_fn(DataRecordModel) -> BridgePortDelays {
    |r: DataRecordModel|
        BridgePortDelays {
            port_speed: u32_at(r.leaves, params.port_speed),
            dependent_rx_delay_min: u64_at(r.leaves, params.dependent_rx_delay_min),
            dependent_rx_delay_max: u64_at(r.leaves, params.dependent_rx_delay_max),
            independent_rx_delay_min: u64_at(r.leaves, params.independent_rx_delay_min),
            independent_rx_delay_max: u64_at(r.leaves, params.independent_rx_delay_max),
            independent_rly_delay_min: u64_at(r.leaves, params.independent_rly_delay_min),
            independent_rly_delay_max: u64_at(r.leaves, params.independent_rly_delay_max),
            independent_tx_delay_min: u64_at(r.leaves, params.independent_tx_delay_min),
            independent_tx_delay_max: u64_at(r.leaves, params.independent_tx_delay_max),
        }
}

/// What a node of the list of interfaces says about a port: its name from the key in the
/// path of the node, its address and tick granularity from below the node, and one delay
/// record for each entry of the list of delay records, in their order.
pub open spec fn port_of(params: SwitchParametersModel) -> spec_fn(DataNodeModel) -> PortModel {
    |n: DataNodeModel|
        PortModel {
            name: interface_name(n.path),
            mac_address: text_at(n.leaves, params.bridge_port_address),
            delays: records_at(n.lists, params.bridge_port_delays).map_values(delays_of(params)),
            tick_granularity: u32_at(n.leaves, params.tick_granularity),
        }
}

/// Reads what `record` says about the delays of a port at one speed.
fn read_delays(record: &DataRecord, params: &SwitchParameters) -> (r: BridgePortDelays)
    ensures
        r == delays_of(params.deep_view())(record.deep_view()),
{
    BridgePortDelays {
        port_speed: read_u32(&record.leaves, &params.port_speed),
        dependent_rx_delay_min: read_u64(&record.leaves, &params.dependent_rx_delay_min),
        dependent_rx_delay_max: read_u64(&record.leaves, &params.dependent_rx_delay_max),
        independent_rx_delay_min: read_u64(&record.leaves, &params.independent_rx_delay_min),
        independent_rx_delay_max: read_u64(&record.leaves, &params.independent_rx_delay_max),
        independent_rly_delay_min: read_u64(&record.leaves, &params.independent_rly_delay_min),
        independent_rly_delay_max: read_u64(&record.leaves, &params.independent_rly_delay_max),
        independent_tx_delay_min: read_u64(&record.leaves, &params.independent_tx_delay_min),
        independent_tx_delay_max: read_u64(&record.leaves, &params.independent_tx_delay_max),
    }
}

/// Reads what `node` says about a port.
fn read_port(node: &DataNode, params: &SwitchParameters) -> (r: Port)
    ensures
        r.deep_view() == port_of(params.deep_view())(node.deep_view()),
{
    let ghost f = delays_of(params.deep_view());
    let mut delays: Vec<BridgePortDelays> = Vec::new();
    match find_records(&node.lists, &params.bridge_port_delays) {
        Some(records) => {
            let ghost all = records.deep_view();
            let mut i: usize = 0;
            proof {
                assert(delays.deep_view() =~= all.take(0).map_values(f));
            }
            while i < records.len()
                invariant
                    i <= records.len(),
                    all == records.deep_view(),
                    f == delays_of(params.deep_view()),
                    delays.deep_view() == all.take(i as int).map_values(f),
                decreases records.len() - i,
            {
                let ghost before = delays.deep_view();
                delays.push(read_delays(&records[i], params));
                proof {
                    assert(delays.deep_view() =~= before.push(f(all[i as int])));
                    assert(all.take(i + 1) =~= all.take(i as int).push(all[i as int]));
                    all.take(i as int).lemma_push_map_commute(f, all[i as int]);
                }
                i += 1;
            }
            proof {
                assert(all.take(i as int) =~= all);
            }
        },
        None => {
            proof {
                assert(delays.deep_view() =~= Seq::<DataRecordModel>::empty().map_values(f));
            }
        },
    }
    Port {
        name: extract_interface_name_from_xpath(node.path.as_str()),
        mac_address: read_text(&node.leaves, &params.bridge_port_address),
        delays,
        tick_granularity: read_u32(&node.leaves, &params.tick_granularity),
    }
}

/// Takes the ports of a Bridge out of what was looked up in its data: one for each node of
/// `dtree`, the nodes of the list of interfaces, in their order.
pub fn extract_port_delays(dtree: &Vec<DataNode>, yang_paths: &YangPaths) -> (r: Vec<Port>)
    ensures
        r.deep_view() == dtree.deep_view().map_values(port_of(yang_paths.deep_view().params)),
{
    let ghost f = port_of(yang_paths.deep_view().params);
    let ghost all = dtree.deep_view();
    let mut ports: Vec<Port> = Vec::new();
    let mut i: usize = 0;
    proof {
        assert(ports.deep_view() =~= all.take(0).map_values(f));
    }
    while i < dtree.len()
        invariant
            i <= dtree.len(),
            all == dtree.deep_view(),
            f == port_of(yang_paths.deep_view().params),
            ports.deep_view() == all.take(i as int).map_values(f),
        decreases dtree.len() - i,
    {
        let ghost before = ports.deep_view();
        ports.push(read_port(&dtree[i], &yang_paths.params));
        proof {
            assert(ports.deep_view() =~= before.push(f(all[i as int])));
            assert(all.take(i + 1) =~= all.take(i as int).push(all[i as int]));
            all.take(i as int).lemma_push_map_commute(f, all[i as int]);
        }
        i += 1;
    }
    proof {
        assert(all.take(i as int) =~= all);
    }
    ports
}

/// What has to be looked up in the data of a Bridge to learn about its neighbours.
pub open spec fn remote_systems_query(params: SwitchParametersModel) -> TreeQueryModel {
    TreeQueryModel {
        root: seq!['/'] + params.remote_systems_data,
        leaves: seq![
            params.chassis_id_subtype,
            params.chassis_id,
            params.port_id_subtype,
            params.port_id,
            params.port_desc,
            params.system_name,
            params.system_description,
            params.system_capabilities_supported,
            params.system_capabilities_enabled,
            params.time_mark,
            params.remote_index,
        ],
        lists: seq![ListQueryModel { path: params.management_address, leaves: Seq::empty() }],
    }
}

/// What has to be looked up in the data of a Bridge to learn about its ports.
pub open spec fn port_delays_query(params: SwitchParametersModel) -> TreeQueryModel {
    TreeQueryModel {
        root: seq!['/'] + params.interfaces,
        leaves: seq![params.bridge_port_address, params.tick_granularity],
        lists: seq![
            ListQueryModel {
                path: params.bridge_port_delays,
                leaves: seq![
                    params.port_speed,
                    params.dependent_rx_delay_min,
                    params.dependent_rx_delay_max,
                    params.independent_rx_delay_min,
                    params.independent_rx_delay_max,
                    params.independent_rly_delay_min,
                    params.independent_rly_delay_max,
                    params.independent_tx_delay_min,
                    params.independent_tx_delay_max,
                ],
            },
        ],
    }
}

/// Says what to look up in the data of a Bridge to learn about its neighbours.
pub fn query_remote_systems(yang_paths: &YangPaths) -> (r: TreeQuery)
    ensures
        r.deep_view() == remote_systems_query(yang_paths.deep_view().params),
{
    let params = &yang_paths.params;
    proof {
        reveal_strlit("/");
    }
    let mut root = String::from_str("/");
    root.append(params.remote_systems_data.as_str());
    let mut leaves: Vec<String> = Vec::new();
    leaves.push(params.chassis_id_subtype.clone());
    leaves.push(params.chassis_id.clone());
    leaves.push(params.port_id_subtype.clone());
    leaves.push(params.port_id.clone());
    leaves.push(params.port_desc.clone());
    leaves.push(params.system_name.clone());
    leaves.push(params.system_description.clone());
    leaves.push(params.system_capabilities_supported.clone());
    leaves.push(params.system_capabilities_enabled.clone());
    leaves.push(params.time_mark.clone());
    leaves.push(params.remote_index.clone());
    let mut lists: Vec<ListQuery> = Vec::new();
    let addresses = ListQuery { path: params.management_address.clone(), leaves: Vec::new() };
    proof {
        assert(addresses.leaves.deep_view() =~= Seq::<Seq<char>>::empty());
    }
    lists.push(addresses);
    let r = TreeQuery { root, leaves, lists };
    proof {
        let q = remote_systems_query(yang_paths.deep_view().params);
        assert(r.root@ =~= q.root);
        assert(r.leaves.deep_view() =~= q.leaves);
        assert(r.lists.deep_view() =~= q.lists);
    }
    r
}

/// Says what to look up in the data of a Bridge to learn about its ports.
pub fn query_port_delays(yang_paths: &YangPaths) -> (r: TreeQuery)
    ensures
        r.deep_view() == port_delays_query(yang_paths.deep_view().params),
{
    let params = &yang_paths.params;
    proof {
        reveal_strlit("/");
    }
    let mut root = String::from_str("/");
    root.append(params.interfaces.as_str());
    let mut leaves: Vec<String> = Vec::new();
    leaves.push(params.bridge_port_address.clone());
    leaves.push(params.tick_granularity.clone());
    let mut delay_leaves: Vec<String> = Vec::new();
    delay_leaves.push(params.port_speed.clone());
    delay_leaves.push(params.dependent_rx_delay_min.clone());
    delay_leaves.push(params.dependent_rx_delay_max.clone());
    delay_leaves.push(params.independent_rx_delay_min.clone());
    delay_leaves.push(params.independent_rx_delay_max.clone());
    delay_leaves.push(params.independent_rly_delay_min.clone());
    delay_leaves.push(params.independent_rly_delay_max.clone());
    delay_leaves.push(params.independent_tx_delay_min.clone());
    delay_leaves.push(params.independent_tx_delay_max.clone());
    let mut lists: Vec<ListQuery> = Vec::new();
    let delays = ListQuery { path: params.bridge_port_delays.clone(), leaves: delay_leaves };
    proof {
        assert(delays.leaves.deep_view() =~= port_delays_query(
            yang_paths.deep_view().params,
        ).lists[0].leaves);
    }
    lists.push(delays);
    let r = TreeQuery { root, leaves, lists };
    proof {
        let q = port_delays_query(yang_paths.deep_view().params);
        assert(r.root@ =~= q.root);
        assert(r.leaves.deep_view() =~= q.leaves);
        assert(r.lists.deep_view() =~= q.lists);
    }
    r
}

} // verus!

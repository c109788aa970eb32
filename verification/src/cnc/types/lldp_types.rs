//! What LLDP (IEEE 802.1AB) tells a Bridge about its neighbours.

use vstd::prelude::*;

verus! {

/// One management address that a neighbour announces.
#[derive(Debug)]
pub struct ManagementAddress {
    /// How the address is encoded, such as `ipv4`.
    pub address_subtype: String,
    pub address: String,
    /// How the interface number is to be read.
    pub if_subtype: String,
    /// Number of the interface that the address belongs to.
    pub if_id: u32,
}

/// What a [`ManagementAddress`] holds, as a mathematical value.
pub struct ManagementAddressModel {
    pub address_subtype: Seq<char>,
    pub address: Seq<char>,
    pub if_subtype: Seq<char>,
    pub if_id: u32,
}

impl DeepView for ManagementAddress {
    type V = ManagementAddressModel;

    open spec fn deep_view(&self) -> ManagementAddressModel {
        ManagementAddressModel {
            address_subtype: self.address_subtype.deep_view(),
            address: self.address.deep_view(),
            if_subtype: self.if_subtype.deep_view(),
            if_id: self.if_id.deep_view(),
        }
    }
}

impl Clone for ManagementAddress {
    fn clone(&self) -> (r: Self)
        ensures
            r.deep_view() == self.deep_view(),
    {
        let address_subtype = self.address_subtype.clone();
        let address = self.address.clone();
        let if_subtype = self.if_subtype.clone();
        ManagementAddress { address_subtype, address, if_subtype, if_id: self.if_id }
    }
}

impl ManagementAddress {
    /// An address record with empty texts and interface number zero.
    pub fn new() -> (r: ManagementAddress)
        ensures
            r.deep_view() == (ManagementAddressModel {
                address_subtype: Seq::empty(),
                address: Seq::empty(),
                if_subtype: Seq::empty(),
                if_id: 0,
            }),
    {
        ManagementAddress {
            address_subtype: String::new(),
            address: String::new(),
            if_subtype: String::new(),
            if_id: 0,
        }
    }
}

/// A TLV of a neighbour's announcement that the Bridge did not recognise.
#[derive(Debug)]
pub struct RemoteUnknownTlv {
    pub tlv_type: u32,
    pub tlv_info: Vec<u8>,
}

/// What a [`RemoteUnknownTlv`] holds, as a mathematical value.
pub struct RemoteUnknownTlvModel {
    pub tlv_type: u32,
    pub tlv_info: Seq<u8>,
}

impl DeepView for RemoteUnknownTlv {
    type V = RemoteUnknownTlvModel;

    open spec fn deep_view(&self) -> RemoteUnknownTlvModel {
        RemoteUnknownTlvModel {
            tlv_type: self.tlv_type.deep_view(),
            tlv_info: self.tlv_info.deep_view(),
        }
    }
}

impl Clone for RemoteUnknownTlv {
    fn clone(&self) -> (r: Self)
        ensures
            r.deep_view() == self.deep_view(),
    {
        let tlv_info = self.tlv_info.clone();
        proof {
            assert(tlv_info.deep_view() =~= self.tlv_info.deep_view());
        }
        RemoteUnknownTlv { tlv_type: self.tlv_type, tlv_info }
    }
}

impl RemoteUnknownTlv {
    /// A record of type zero without content.
    pub fn new() -> (r: RemoteUnknownTlv)
        ensures
            r.deep_view() == (RemoteUnknownTlvModel { tlv_type: 0, tlv_info: Seq::empty() }),
    {
        let r = RemoteUnknownTlv { tlv_type: 0, tlv_info: Vec::new() };
        proof {
            assert(r.tlv_info.deep_view() =~= Seq::<u8>::empty());
        }
        r
    }
}

/// Organisationally defined information that a neighbour announces.
#[derive(Debug)]
pub struct RemoteOrgDefinedInfo {
    /// Organisationally unique identifier or company id.
    pub info_identifier: u32,
    pub info_subtype: u32,
    pub info_index: u32,
    pub remote_info: Vec<u8>,
}

/// What a [`RemoteOrgDefinedInfo`] holds, as a mathematical value.
pub struct RemoteOrgDefinedInfoModel {
    pub info_identifier: u32,
    pub info_subtype: u32,
    pub info_index: u32,
    pub remote_info: Seq<u8>,
}

impl DeepView for RemoteOrgDefinedInfo {
    type V = RemoteOrgDefinedInfoModel;

    open spec fn deep_view(&self) -> RemoteOrgDefinedInfoModel {
        RemoteOrgDefinedInfoModel {
            info_identifier: self.info_identifier.deep_view(),
            info_subtype: self.info_subtype.deep_view(),
            info_index: self.info_index.deep_view(),
            remote_info: self.remote_info.deep_view(),
        }
    }
}

impl Clone for RemoteOrgDefinedInfo {
    fn clone(&self) -> (r: Self)
        ensures
            r.deep_view() == self.deep_view(),
    {
        let remote_info = self.remote_info.clone();
        proof {
            assert(remote_info.deep_view() =~= self.remote_info.deep_view());
        }
        RemoteOrgDefinedInfo {
            info_identifier: self.info_identifier,
            info_subtype: self.info_subtype,
            info_index: self.info_index,
            remote_info,
        }
    }
}

impl RemoteOrgDefinedInfo {
    /// A record with every number at zero and no content.
    pub fn new() -> (r: RemoteOrgDefinedInfo)
        ensures
            r.deep_view() == (RemoteOrgDefinedInfoModel {
                info_identifier: 0,
                info_subtype: 0,
                info_index: 0,
                remote_info: Seq::empty(),
            }),
    {
        let r = RemoteOrgDefinedInfo {
            info_identifier: 0,
            info_subtype: 0,
            info_index: 0,
            remote_info: Vec::new(),
        };
        proof {
            assert(r.remote_info.deep_view() =~= Seq::<u8>::empty());
        }
        r
    }
}

/// What a Bridge port learned over LLDP about the system at the other end of a link.
#[derive(Debug)]
pub struct RemoteSystemsData {
    /// Time filter of the entry.
    pub time_mark: u32,
    /// Local number by which the Bridge tells its neighbours apart.
    pub remote_index: u32,
    pub chassis_id_subtype: String,
    pub chassis_id: String,
    pub port_id_subtype: String,
    pub port_id: String,
    pub port_desc: String,
    pub system_name: String,
    pub system_description: String,
    pub system_capabilities_supported: String,
    pub system_capabilities_enabled: String,
    pub management_address: Vec<ManagementAddress>,
    pub remote_unknown_tlv: Vec<RemoteUnknownTlv>,
    pub remote_org_defined_info: Vec<RemoteOrgDefinedInfo>,
}

/// What a [`RemoteSystemsData`] holds, as a mathematical value.
pub struct RemoteSystemsDataModel {
    pub time_mark: u32,
    pub remote_index: u32,
    pub chassis_id_subtype: Seq<char>,
    pub chassis_id: Seq<char>,
    pub port_id_subtype: Seq<char>,
    pub port_id: Seq<char>,
    pub port_desc: Seq<char>,
    pub system_name: Seq<char>,
    pub system_description: Seq<char>,
    pub system_capabilities_supported: Seq<char>,
    pub system_capabilities_enabled: Seq<char>,
    pub management_address: Seq<ManagementAddressModel>,
    pub remote_unknown_tlv: Seq<RemoteUnknownTlvModel>,
    pub remote_org_defined_info: Seq<RemoteOrgDefinedInfoModel>,
}

impl DeepView for RemoteSystemsData {
    type V = RemoteSystemsDataModel;

    open spec fn deep_view(&self) -> RemoteSystemsDataModel {
        RemoteSystemsDataModel {
            time_mark: self.time_mark.deep_view(),
            remote_index: self.remote_index.deep_view(),
            chassis_id_subtype: self.chassis_id_subtype.deep_view(),
            chassis_id: self.chassis_id.deep_view(),
            port_id_subtype: self.port_id_subtype.deep_view(),
            port_id: self.port_id.deep_view(),
            port_desc: self.port_desc.deep_view(),
            system_name: self.system_name.deep_view(),
            system_description: self.system_description.deep_view(),
            system_capabilities_supported: self.system_capabilities_supported.deep_view(),
            system_capabilities_enabled: self.system_capabilities_enabled.deep_view(),
            management_address: self.management_address.deep_view(),
            remote_unknown_tlv: self.remote_unknown_tlv.deep_view(),
            remote_org_defined_info: self.remote_org_defined_info.deep_view(),
        }
    }
}

impl Clone for RemoteSystemsData {
    fn clone(&self) -> (r: Self)
        ensures
            r.deep_view() == self.deep_view(),
    {
        let chassis_id_subtype = self.chassis_id_subtype.clone();
        let chassis_id = self.chassis_id.clone();
        let port_id_subtype = self.port_id_subtype.clone();
        let port_id = self.port_id.clone();
        let port_desc = self.port_desc.clone();
        let system_name = self.system_name.clone();
        let system_description = self.system_description.clone();
        let system_capabilities_supported = self.system_capabilities_supported.clone();
        let system_capabilities_enabled = self.system_capabilities_enabled.clone();
        let management_address = self.management_address.clone();
        let remote_unknown_tlv = self.remote_unknown_tlv.clone();
        let remote_org_defined_info = self.remote_org_defined_info.clone();
        proof {
            assert(management_address.deep_view() =~= self.management_address.deep_view());
            assert(remote_unknown_tlv.deep_view() =~= self.remote_unknown_tlv.deep_view());
            assert(remote_org_defined_info.deep_view()
                =~= self.remote_org_defined_info.deep_view());
        }
        RemoteSystemsData {
            time_mark: self.time_mark,
            remote_index: self.remote_index,
            chassis_id_subtype,
            chassis_id,
            port_id_subtype,
            port_id,
            port_desc,
            system_name,
            system_description,
            system_capabilities_supported,
            system_capabilities_enabled,
            management_address,
            remote_unknown_tlv,
            remote_org_defined_info,
        }
    }
}

impl RemoteSystemsData {
    /// The mathematical value of a record about which nothing is known yet.
    pub open spec fn empty_model() -> RemoteSystemsDataModel {
        RemoteSystemsDataModel {
            time_mark: 0,
            remote_index: 0,
            chassis_id_subtype: Seq::empty(),
            chassis_id: Seq::empty(),
            port_id_subtype: Seq::empty(),
            port_id: Seq::empty(),
            port_desc: Seq::empty(),
            system_name: Seq::empty(),
            system_description: Seq::empty(),
            system_capabilities_supported: Seq::empty(),
            system_capabilities_enabled: Seq::empty(),
            management_address: Seq::empty(),
            remote_unknown_tlv: Seq::empty(),
            remote_org_defined_info: Seq::empty(),
        }
    }

    /// A record with empty texts, zero numbers and empty lists.
    pub fn new() -> (r: RemoteSystemsData)
        ensures
            r.deep_view() == Self::empty_model(),
    {
        let r = RemoteSystemsData {
            time_mark: 0,
            remote_index: 0,
            chassis_id_subtype: String::new(),
            chassis_id: String::new(),
            port_id_subtype: String::new(),
            port_id: String::new(),
            port_desc: String::new(),
            system_name: String::new(),
            system_description: String::new(),
            system_capabilities_supported: String::new(),
            system_capabilities_enabled: String::new(),
            management_address: Vec::new(),
            remote_unknown_tlv: Vec::new(),
            remote_org_defined_info: Vec::new(),
        };
        proof {
            assert(r.management_address.deep_view() =~= Seq::<ManagementAddressModel>::empty());
            assert(r.remote_unknown_tlv.deep_view() =~= Seq::<RemoteUnknownTlvModel>::empty());
            assert(r.remote_org_defined_info.deep_view()
                =~= Seq::<RemoteOrgDefinedInfoModel>::empty());
        }
        r
    }
}

} // verus!

//! Value types shared by many request and response shapes.

use vstd::prelude::*;

use crate::num::spec_dec;
use crate::num::dec_string;
use crate::xml::attr;
use crate::xml::attr_text_node;
use crate::xml::attrs_view;
use crate::xml::children_view;
use crate::xml::elem;
use crate::xml::elem_with_attrs;
use crate::xml::spec_attr_text_node;
use crate::xml::spec_text_node;
use crate::xml::text_node;
use crate::xml::SpecAttr;
use crate::xml::SpecNode;
use crate::xml::XmlAttr;
use crate::xml::XmlNode;

verus! {

broadcast use
    vstd::std_specs::vec::group_vec_axioms,
    vstd::seq::group_seq_axioms,
;

/// A string that appears as element character data on the wire (rather
/// than as an attribute).
#[derive(Debug, PartialEq, Eq, Clone)]
pub struct StringValue(pub String);

impl View for StringValue {
    type V = Seq<char>;

    open spec fn view(&self) -> Seq<char> {
        self.0@
    }
}

impl StringValue {
    pub fn new(s: &str) -> (r: StringValue)
        ensures
            r@ == s@,
    {
        StringValue(String::from_str(s))
    }

    pub fn as_str(&self) -> (r: &str)
        ensures
            r@ == self@,
    {
        self.0.as_str()
    }
}

impl From<&str> for StringValue {
    fn from(s: &str) -> (r: StringValue) {
        StringValue::new(s)
    }
}

impl vstd::std_specs::convert::FromSpecImpl<&str> for StringValue {
    open spec fn obeys_from_spec() -> bool {
        false
    }

    open spec fn from_spec(s: &str) -> StringValue {
        arbitrary()
    }
}

impl From<String> for StringValue {
    fn from(s: String) -> (r: StringValue) {
        StringValue(s)
    }
}

impl vstd::std_specs::convert::FromSpecImpl<String> for StringValue {
    open spec fn obeys_from_spec() -> bool {
        false
    }

    open spec fn from_spec(s: String) -> StringValue {
        arbitrary()
    }
}

/// The sentinel for "no extension": a command paired with it serializes
/// with no extension element at all, and a response paired with it
/// carries no extension payload.  It never appears on the wire.
#[derive(Debug, PartialEq, Eq)]
pub struct NoExtension;

/// A two-letter country code.
#[derive(Debug, PartialEq, Eq, Clone)]
pub struct Country(pub String);

impl View for Country {
    type V = Seq<char>;

    open spec fn view(&self) -> Seq<char> {
        self.0@
    }
}

impl Country {
    pub fn new(code: &str) -> (r: Country)
        ensures
            r@ == code@,
    {
        Country(String::from_str(code))
    }

    pub fn as_str(&self) -> (r: &str)
        ensures
            r@ == self@,
    {
        self.0.as_str()
    }
}

impl core::str::FromStr for Country {
    type Err = ();

    fn from_str(s: &str) -> Result<Country, ()> {
        Ok(Country::new(s))
    }
}

/// A validity period, in years or months.
#[derive(Debug, PartialEq, Eq, Clone)]
pub struct Period {
    /// "y" or "m".
    pub unit: String,
    /// How many of that unit.
    pub length: u16,
}

impl Period {
    /// A period of that many years.
    pub fn new(length: u16) -> (r: Period)
        ensures
            r.unit@ == "y"@,
            r.length == length,
    {
        Period { unit: String::from_str("y"), length }
    }

    /// `<domain:period unit="y">L</domain:period>`
    pub open spec fn spec_node(&self) -> SpecNode {
        spec_attr_text_node(
            "domain:period"@,
            seq![SpecAttr { name: "unit"@, value: self.unit@ }],
            spec_dec(self.length as nat),
        )
    }

    pub fn node(&self) -> (r: XmlNode)
        ensures
            r@ == self.spec_node(),
    {
        let mut attrs: Vec<XmlAttr> = Vec::new();
        attrs.push(attr("unit", String::from_str(self.unit.as_str())));
        proof {
            assert(attrs_view(attrs) =~= seq![SpecAttr { name: "unit"@, value: self.unit@ }]);
            crate::num::lemma_dec_digits(self.length as nat);
        }
        attr_text_node("domain:period", attrs, dec_string(self.length as u64))
    }
}

/// A status tag of a domain object.
#[derive(Debug, PartialEq, Eq, Clone)]
pub struct DomainStatus {
    /// The status name, e.g. `clientDeleteProhibited`.
    pub status: String,
}

impl DomainStatus {
    /// `<domain:status s="..."/>`
    pub open spec fn spec_node(&self) -> SpecNode {
        spec_attr_text_node(
            "domain:status"@,
            seq![SpecAttr { name: "s"@, value: self.status@ }],
            Seq::empty(),
        )
    }

    pub fn node(&self) -> (r: XmlNode)
        ensures
            r@ == self.spec_node(),
    {
        let mut attrs: Vec<XmlAttr> = Vec::new();
        attrs.push(attr("s", String::from_str(self.status.as_str())));
        proof {
            assert(attrs_view(attrs) =~= seq![SpecAttr { name: "s"@, value: self.status@ }]);
        }
        attr_text_node("domain:status", attrs, String::new())
    }
}

/// A status tag of a contact object.
#[derive(Debug, PartialEq, Eq, Clone)]
pub struct ContactStatus {
    /// The status name.
    pub status: String,
}

impl ContactStatus {
    /// `<contact:status s="..."/>`
    pub open spec fn spec_node(&self) -> SpecNode {
        spec_attr_text_node(
            "contact:status"@,
            seq![SpecAttr { name: "s"@, value: self.status@ }],
            Seq::empty(),
        )
    }

    pub fn node(&self) -> (r: XmlNode)
        ensures
            r@ == self.spec_node(),
    {
        let mut attrs: Vec<XmlAttr> = Vec::new();
        attrs.push(attr("s", String::from_str(self.status.as_str())));
        proof {
            assert(attrs_view(attrs) =~= seq![SpecAttr { name: "s"@, value: self.status@ }]);
        }
        attr_text_node("contact:status", attrs, String::new())
    }
}

/// A status tag of a host object.
#[derive(Debug, PartialEq, Eq, Clone)]
pub struct HostStatus {
    /// The status name.
    pub status: String,
}

impl HostStatus {
    /// `<host:status s="..."/>`
    pub open spec fn spec_node(&self) -> SpecNode {
        spec_attr_text_node(
            "host:status"@,
            seq![SpecAttr { name: "s"@, value: self.status@ }],
            Seq::empty(),
        )
    }

    pub fn node(&self) -> (r: XmlNode)
        ensures
            r@ == self.spec_node(),
    {
        let mut attrs: Vec<XmlAttr> = Vec::new();
        attrs.push(attr("s", String::from_str(self.status.as_str())));
        proof {
            assert(attrs_view(attrs) =~= seq![SpecAttr { name: "s"@, value: self.status@ }]);
        }
        attr_text_node("host:status", attrs, String::new())
    }
}

/// The authorization password of a domain object.
#[derive(Debug, PartialEq, Eq, Clone)]
pub struct DomainAuthInfo {
    pub password: StringValue,
}

impl DomainAuthInfo {
    pub fn new(password: &str) -> (r: DomainAuthInfo)
        ensures
            r.password@ == password@,
    {
        DomainAuthInfo { password: StringValue::new(password) }
    }

    /// `<domain:authInfo><domain:pw>..</domain:pw></domain:authInfo>`
    pub open spec fn spec_node(&self) -> SpecNode {
        SpecNode::Elem {
            name: "domain:authInfo"@,
            attrs: Seq::empty(),
            children: seq![spec_text_node("domain:pw"@, self.password@)],
        }
    }

    pub fn node(&self) -> (r: XmlNode)
        ensures
            r@ == self.spec_node(),
    {
        let mut children: Vec<XmlNode> = Vec::new();
        children.push(text_node("domain:pw", String::from_str(self.password.as_str())));
        proof {
            assert(children_view(children) =~= seq![spec_text_node("domain:pw"@, self.password@)]);
        }
        elem("domain:authInfo", children)
    }
}

/// The authorization password of a contact object.
#[derive(Debug, PartialEq, Eq, Clone)]
pub struct ContactAuthInfo {
    pub password: StringValue,
}

impl ContactAuthInfo {
    pub fn new(password: &str) -> (r: ContactAuthInfo)
        ensures
            r.password@ == password@,
    {
        ContactAuthInfo { password: StringValue::new(password) }
    }

    /// `<contact:authInfo><contact:pw>..</contact:pw></contact:authInfo>`
    pub open spec fn spec_node(&self) -> SpecNode {
        SpecNode::Elem {
            name: "contact:authInfo"@,
            attrs: Seq::empty(),
            children: seq![spec_text_node("contact:pw"@, self.password@)],
        }
    }

    pub fn node(&self) -> (r: XmlNode)
        ensures
            r@ == self.spec_node(),
    {
        let mut children: Vec<XmlNode> = Vec::new();
        children.push(text_node("contact:pw", String::from_str(self.password.as_str())));
        proof {
            assert(children_view(children) =~= seq![spec_text_node(
                "contact:pw"@,
                self.password@,
            )]);
        }
        elem("contact:authInfo", children)
    }
}

/// A phone or fax number with an optional extension digit string.
#[derive(Debug, PartialEq, Eq, Clone)]
pub struct Phone {
    /// The number itself, the element's character data.
    pub number: String,
    /// The `x` attribute, when present.
    pub extension: Option<String>,
}

impl Phone {
    pub fn new(number: &str) -> (r: Phone)
        ensures
            r.number@ == number@,
            r.extension is None,
    {
        Phone { number: String::from_str(number), extension: None }
    }

    pub fn set_extension(&mut self, ext: &str)
        ensures
            final(self).number == old(self).number,
            final(self).extension matches Some(e) && e@ == ext@,
    {
        self.extension = Some(String::from_str(ext));
    }

    /// `<name x="ext">number</name>`
    pub open spec fn spec_node(&self, name: Seq<char>) -> SpecNode {
        spec_attr_text_node(
            name,
            match self.extension {
                Some(e) => seq![SpecAttr { name: "x"@, value: e@ }],
                None => Seq::empty(),
            },
            self.number@,
        )
    }

    pub fn node(&self, name: &str) -> (r: XmlNode)
        ensures
            r@ == self.spec_node(name@),
    {
        let mut attrs: Vec<XmlAttr> = Vec::new();
        match &self.extension {
            Some(e) => {
                attrs.push(attr("x", String::from_str(e.as_str())));
                proof {
                    assert(attrs_view(attrs) =~= seq![SpecAttr { name: "x"@, value: e@ }]);
                }
            },
            None => {
                proof {
                    assert(attrs_view(attrs) =~= Seq::<SpecAttr>::empty());
                }
            },
        }
        attr_text_node(name, attrs, String::from_str(self.number.as_str()))
    }
}

} // verus!

verus! {

/// A text element for each value, in order.
#[verifier::loop_isolation(false)]
pub fn value_text_nodes(name: &str, values: &Vec<StringValue>) -> (r: Vec<XmlNode>)
    ensures
        children_view(r) == values@.map_values(|v: StringValue| spec_text_node(name@, v@)),
{
    let ghost goal = values@.map_values(|v: StringValue| spec_text_node(name@, v@));
    let mut r: Vec<XmlNode> = Vec::new();
    let mut i: usize = 0;
    while i < values.len()
        invariant
            0 <= i <= values.len(),
            children_view(r) =~= goal.take(i as int),
        decreases values.len() - i,
    {
        let node = text_node(name, String::from_str(values[i].as_str()));
        let ghost prev = r@;
        r.push(node);
        proof {
            crate::xml::lemma_nodes_view_push(prev, node);
            assert(children_view(r) =~= goal.take(i + 1 as int));
        }
        i = i + 1;
    }
    proof {
        assert(goal.take(values.len() as int) =~= goal);
    }
    r
}

/// A postal address.
#[derive(Debug, PartialEq, Eq, Clone)]
pub struct Address {
    /// Street lines, up to three.
    pub street: Vec<StringValue>,
    pub city: StringValue,
    pub province: StringValue,
    pub postal_code: StringValue,
    pub country: Country,
}

impl Address {
    pub fn new(street: &[&str], city: &str, province: &str, postal_code: &str, country: Country)
        -> (r: Address)
        ensures
            r.street@.map_values(|v: StringValue| v@) == street@.map_values(|s: &str| s@),
            r.city@ == city@,
            r.province@ == province@,
            r.postal_code@ == postal_code@,
            r.country == country,
    {
        let mut lines: Vec<StringValue> = Vec::new();
        let mut i: usize = 0;
        while i < street.len()
            invariant
                0 <= i <= street@.len(),
                lines@.len() == i,
                forall|j: int| 0 <= j < i ==> (#[trigger] lines@[j])@ == street@[j]@,
            decreases street@.len() - i,
        {
            lines.push(StringValue::new(street[i]));
            i = i + 1;
        }
        proof {
            assert(lines@.map_values(|v: StringValue| v@) =~~= street@.map_values(|s: &str| s@));
        }
        Address {
            street: lines,
            city: StringValue::new(city),
            province: StringValue::new(province),
            postal_code: StringValue::new(postal_code),
            country,
        }
    }

    /// `<contact:addr>` with street, city, province, postal code and
    /// country children.
    pub open spec fn spec_node(&self) -> SpecNode {
        SpecNode::Elem {
            name: "contact:addr"@,
            attrs: Seq::empty(),
            children: self.street@.map_values(
                |v: StringValue| spec_text_node("contact:street"@, v@),
            ) + seq![
                spec_text_node("contact:city"@, self.city@),
                spec_text_node("contact:sp"@, self.province@),
                spec_text_node("contact:pc"@, self.postal_code@),
                spec_text_node("contact:cc"@, self.country@),
            ],
        }
    }

    pub fn node(&self) -> (r: XmlNode)
        ensures
            r@ == self.spec_node(),
    {
        let mut children = value_text_nodes("contact:street", &self.street);
        let ghost streets = children_view(children);
        let ghost c0 = children@;
        let city = text_node("contact:city", String::from_str(self.city.as_str()));
        children.push(city);
        let ghost c1 = children@;
        let sp = text_node("contact:sp", String::from_str(self.province.as_str()));
        children.push(sp);
        let ghost c2 = children@;
        let pc = text_node("contact:pc", String::from_str(self.postal_code.as_str()));
        children.push(pc);
        let ghost c3 = children@;
        let cc = text_node("contact:cc", String::from_str(self.country.as_str()));
        children.push(cc);
        proof {
            assert(children_view(children) =~= self.spec_node()->Elem_children);
        }
        elem("contact:addr", children)
    }
}

/// One kind of postal info of a contact, international or local.
#[derive(Debug, PartialEq, Eq, Clone)]
pub struct PostalInfo {
    /// "int" or "loc".
    pub info_type: String,
    pub name: StringValue,
    pub organization: StringValue,
    pub address: Address,
}

impl PostalInfo {
    pub fn new(info_type: &str, name: &str, organization: &str, address: Address) -> (r:
        PostalInfo)
        ensures
            r.info_type@ == info_type@,
            r.name@ == name@,
            r.organization@ == organization@,
            r.address == address,
    {
        PostalInfo {
            info_type: String::from_str(info_type),
            name: StringValue::new(name),
            organization: StringValue::new(organization),
            address,
        }
    }

    /// `<contact:postalInfo type="..">` with name, org and addr children.
    pub open spec fn spec_node(&self) -> SpecNode {
        SpecNode::Elem {
            name: "contact:postalInfo"@,
            attrs: seq![SpecAttr { name: "type"@, value: self.info_type@ }],
            children: seq![
                spec_text_node("contact:name"@, self.name@),
                spec_text_node("contact:org"@, self.organization@),
                self.address.spec_node(),
            ],
        }
    }

    pub fn node(&self) -> (r: XmlNode)
        ensures
            r@ == self.spec_node(),
    {
        let mut attrs: Vec<XmlAttr> = Vec::new();
        attrs.push(attr("type", String::from_str(self.info_type.as_str())));
        let mut children: Vec<XmlNode> = Vec::new();
        children.push(text_node("contact:name", String::from_str(self.name.as_str())));
        children.push(text_node("contact:org", String::from_str(self.organization.as_str())));
        children.push(self.address.node());
        proof {
            assert(attrs_view(attrs) =~= self.spec_node()->Elem_attrs);
            assert(children_view(children) =~= self.spec_node()->Elem_children);
        }
        elem_with_attrs("contact:postalInfo", attrs, children)
    }
}

/// One address of a host, `v4` or `v6`.
#[derive(Debug, PartialEq, Eq, Clone)]
pub struct HostAddr {
    /// The `ip` attribute, when present.
    pub ip_version: Option<String>,
    /// The address itself.
    pub address: String,
}

impl HostAddr {
    pub fn new(ip_version: &str, address: &str) -> (r: HostAddr)
        ensures
            r.ip_version matches Some(v) && v@ == ip_version@,
            r.address@ == address@,
    {
        HostAddr { ip_version: Some(String::from_str(ip_version)), address: String::from_str(address) }
    }

    pub fn new_v4(address: &str) -> (r: HostAddr)
        ensures
            r.ip_version matches Some(v) && v@ == "v4"@,
            r.address@ == address@,
    {
        HostAddr::new("v4", address)
    }

    pub fn new_v6(address: &str) -> (r: HostAddr)
        ensures
            r.ip_version matches Some(v) && v@ == "v6"@,
            r.address@ == address@,
    {
        HostAddr::new("v6", address)
    }

    /// `<name ip="v4">address</name>`
    pub open spec fn spec_node(&self, name: Seq<char>) -> SpecNode {
        spec_attr_text_node(
            name,
            match self.ip_version {
                Some(v) => seq![SpecAttr { name: "ip"@, value: v@ }],
                None => Seq::empty(),
            },
            self.address@,
        )
    }

    pub fn node(&self, name: &str) -> (r: XmlNode)
        ensures
            r@ == self.spec_node(name@),
    {
        let mut attrs: Vec<XmlAttr> = Vec::new();
        match &self.ip_version {
            Some(v) => {
                attrs.push(attr("ip", String::from_str(v.as_str())));
                proof {
                    assert(attrs_view(attrs) =~= seq![SpecAttr { name: "ip"@, value: v@ }]);
                }
            },
            None => {
                proof {
                    assert(attrs_view(attrs) =~= Seq::<SpecAttr>::empty());
                }
            },
        }
        attr_text_node(name, attrs, String::from_str(self.address.as_str()))
    }
}

/// An address element for each host address, in order.
#[verifier::loop_isolation(false)]
pub fn host_addr_nodes(name: &str, addrs: &Vec<HostAddr>) -> (r: Vec<XmlNode>)
    ensures
        children_view(r) == addrs@.map_values(|a: HostAddr| a.spec_node(name@)),
{
    let ghost goal = addrs@.map_values(|a: HostAddr| a.spec_node(name@));
    let mut r: Vec<XmlNode> = Vec::new();
    let mut i: usize = 0;
    while i < addrs.len()
        invariant
            0 <= i <= addrs.len(),
            children_view(r) =~= goal.take(i as int),
        decreases addrs.len() - i,
    {
        let node = addrs[i].node(name);
        let ghost prev = r@;
        r.push(node);
        proof {
            crate::xml::lemma_nodes_view_push(prev, node);
            assert(children_view(r) =~= goal.take(i + 1 as int));
        }
        i = i + 1;
    }
    proof {
        assert(goal.take(addrs.len() as int) =~= goal);
    }
    r
}

/// One contact bound to a domain, with its role.
#[derive(Debug, PartialEq, Eq, Clone)]
pub struct DomainContact {
    /// "admin", "tech" or "billing": the `type` attribute.
    pub contact_type: String,
    /// The contact id, the element's character data.
    pub id: String,
}

impl DomainContact {
    /// `<domain:contact type="admin">id</domain:contact>`
    pub open spec fn spec_node(&self) -> SpecNode {
        spec_attr_text_node(
            "domain:contact"@,
            seq![SpecAttr { name: "type"@, value: self.contact_type@ }],
            self.id@,
        )
    }

    pub fn node(&self) -> (r: XmlNode)
        ensures
            r@ == self.spec_node(),
    {
        let mut attrs: Vec<XmlAttr> = Vec::new();
        attrs.push(attr("type", String::from_str(self.contact_type.as_str())));
        proof {
            assert(attrs_view(attrs) =~= seq![SpecAttr {
                name: "type"@,
                value: self.contact_type@,
            }]);
        }
        attr_text_node("domain:contact", attrs, String::from_str(self.id.as_str()))
    }
}

/// Name servers given as host objects.
#[derive(Debug, PartialEq, Eq, Clone)]
pub struct HostObjList {
    pub hosts: Vec<StringValue>,
}

/// One name server given by name and addresses.
#[derive(Debug, PartialEq, Eq, Clone)]
pub struct HostAttr {
    pub name: StringValue,
    pub addresses: Option<Vec<HostAddr>>,
}

impl HostAttr {
    /// `<domain:hostAttr>` with the host name and its addresses.
    pub open spec fn spec_node(&self) -> SpecNode {
        SpecNode::Elem {
            name: "domain:hostAttr"@,
            attrs: Seq::empty(),
            children: seq![spec_text_node("domain:hostName"@, self.name@)] + (
            match self.addresses {
                Some(addrs) => addrs@.map_values(
                    |a: HostAddr| a.spec_node("domain:hostAddr"@),
                ),
                None => Seq::empty(),
            }),
        }
    }

    pub fn node(&self) -> (r: XmlNode)
        ensures
            r@ == self.spec_node(),
    {
        let mut children: Vec<XmlNode> = Vec::new();
        children.push(text_node("domain:hostName", String::from_str(self.name.as_str())));
        match &self.addresses {
            Some(addrs) => {
                let mut addr_nodes = host_addr_nodes("domain:hostAddr", addrs);
                let ghost before = children@;
                let ghost added = addr_nodes@;
                children.append(&mut addr_nodes);
                proof {
                    assert(children_view(children) =~= self.spec_node()->Elem_children) by {
                        assert(children@ == before + added);
                        assert forall|i: int| 0 <= i < added.len() implies added[i]@
                            == children_view(children)[before.len() + i] by {}
                    }
                }
            },
            None => {
                proof {
                    assert(children_view(children) =~= self.spec_node()->Elem_children);
                }
            },
        }
        elem("domain:hostAttr", children)
    }
}

/// Name servers given as attribute lists.
#[derive(Debug, PartialEq, Eq, Clone)]
pub struct HostAttrList {
    pub hosts: Vec<HostAttr>,
}

/// The name servers of a domain, one of the two forms the protocol
/// allows.
#[derive(Debug, PartialEq, Eq, Clone)]
pub enum HostList {
    HostObjList(HostObjList),
    HostAttrList(HostAttrList),
}

impl HostList {
    /// The children of `<domain:ns>`: either host objects or host
    /// attribute blocks.
    pub open spec fn spec_ns_children(&self) -> Seq<SpecNode> {
        match self {
            HostList::HostObjList(l) => l.hosts@.map_values(
                |v: StringValue| spec_text_node("domain:hostObj"@, v@),
            ),
            HostList::HostAttrList(l) => l.hosts@.map_values(|h: HostAttr| h.spec_node()),
        }
    }

    /// `<domain:ns>` holding this list.
    pub open spec fn spec_node(&self) -> SpecNode {
        SpecNode::Elem {
            name: "domain:ns"@,
            attrs: Seq::empty(),
            children: self.spec_ns_children(),
        }
    }

    #[verifier::loop_isolation(false)]
    pub fn node(&self) -> (r: XmlNode)
        ensures
            r@ == self.spec_node(),
    {
        match self {
            HostList::HostObjList(l) => {
                let children = value_text_nodes("domain:hostObj", &l.hosts);
                proof {
                    assert(children_view(children) =~= self.spec_ns_children());
                }
                elem("domain:ns", children)
            },
            HostList::HostAttrList(l) => {
                let ghost goal = self.spec_ns_children();
                let mut children: Vec<XmlNode> = Vec::new();
                let mut i: usize = 0;
                while i < l.hosts.len()
                    invariant
                        0 <= i <= l.hosts.len(),
                        children_view(children) =~= goal.take(i as int),
                    decreases l.hosts.len() - i,
                {
                    let node = l.hosts[i].node();
                    let ghost prev = children@;
                    children.push(node);
                    proof {
                        crate::xml::lemma_nodes_view_push(prev, node);
                        assert(children_view(children) =~= goal.take(i + 1 as int));
                    }
                    i = i + 1;
                }
                proof {
                    assert(goal.take(l.hosts.len() as int) =~= goal);
                }
                elem("domain:ns", children)
            },
        }
    }
}

} // verus!

verus! {

/// The sentinel is an extension type so that extension-free pairings go
/// through the same generic dispatcher; no caller ever supplies it, so
/// its body never reaches the wire.
impl crate::request::EppExtension for NoExtension {
    open spec fn spec_ext_node(&self) -> SpecNode {
        SpecNode::Elem { name: "noExtension"@, attrs: Seq::empty(), children: Seq::empty() }
    }

    fn ext_node(&self) -> (r: XmlNode) {
        let children: Vec<XmlNode> = Vec::new();
        proof {
            assert(children_view(children) =~= Seq::<SpecNode>::empty());
        }
        elem("noExtension", children)
    }
}

/// Reading the absent extension payload never fails and learns nothing.
impl crate::request::FromXml for NoExtension {
    open spec fn spec_decodes(n: SpecNode, v: NoExtension) -> bool {
        true
    }

    fn from_node(n: &XmlNode) -> (r: Result<NoExtension, crate::err::EppError>) {
        Ok(NoExtension)
    }
}

} // verus!

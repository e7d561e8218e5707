//! Types for the consolidate (sync) extension, aligning a domain's
//! expiry to a fixed month and day.

use vstd::prelude::*;

use crate::common::NoExtension;
use crate::common::StringValue;
use crate::domain::update::DomainUpdate;
use crate::extensions::namestore::NameStore;
use crate::num::append_dec_padded;
use crate::num::spec_dec_padded;
use vstd::math::abs;
use crate::request::EppExtension;
use crate::request::Transaction;
use crate::xml::attr;
use crate::xml::attrs_view;
use crate::xml::children_view;
use crate::xml::elem_with_attrs;
use crate::xml::spec_text_node;
use crate::xml::text_node;
use crate::xml::SpecAttr;
use crate::xml::SpecNode;
use crate::xml::XmlAttr;
use crate::xml::XmlNode;

verus! {

/// The XML namespace for the consolidate extension.
pub const XMLNS: &'static str = "http://www.verisign.com/epp/sync-1.0";

/// A day of the year, as the `gMonthDay` type of XML Schema, with an
/// optional fixed zone offset in minutes.
#[derive(Debug, PartialEq, Eq)]
pub struct GMonthDay {
    pub month: u8,
    pub day: u8,
    /// Minutes east of UTC, when a zone is given.
    pub timezone: Option<i32>,
}

/// The most days any month can have, counting leap years.
pub open spec fn spec_month_max(month: u8) -> u8 {
    if month == 2 {
        29
    } else if month == 4 || month == 6 || month == 9 || month == 11 {
        30
    } else {
        31
    }
}

fn month_max(month: u8) -> (r: u8)
    ensures
        r == spec_month_max(month),
{
    if month == 2 {
        29
    } else if month == 4 || month == 6 || month == 9 || month == 11 {
        30
    } else {
        31
    }
}

/// The `--MM-DD` rendering of a month and day, without a zone.
pub open spec fn spec_gmonthday_chars(month: u8, day: u8) -> Seq<char> {
    seq!['-', '-'] + spec_dec_padded(month as nat, 2) + seq!['-'] + spec_dec_padded(
        day as nat,
        2,
    )
}

/// The rendering of a fixed zone offset in minutes east of UTC: a sign,
/// two hour digits, a colon, and two minute digits.
pub open spec fn spec_offset_chars(minutes: int) -> Seq<char> {
    (if minutes >= 0 {
        seq!['+']
    } else {
        seq!['-']
    }) + spec_dec_padded((abs(minutes) / 60) as nat, 2) + seq![':'] + spec_dec_padded(
        (abs(minutes) % 60) as nat,
        2,
    )
}

/// The full `gMonthDay` rendering: `--MM-DD`, followed by the zone
/// offset when one is present.
pub open spec fn spec_gmonthday_text(g: GMonthDay) -> Seq<char> {
    spec_gmonthday_chars(g.month, g.day) + (match g.timezone {
        Some(m) => spec_offset_chars(m as int),
        None => Seq::empty(),
    })
}

impl GMonthDay {
    /// A day of the year.  Rejected exactly when the month is not a
    /// month, the day is not a day, or the day does not occur in that
    /// month.
    pub fn new(month: u8, day: u8, timezone: Option<i32>) -> (r: Result<GMonthDay, String>)
        ensures
            match r {
                Ok(g) => 1 <= month <= 12 && 1 <= day <= 31 && day <= spec_month_max(month)
                    && g.month == month && g.day == day && g.timezone == timezone,
                Err(_) => !(1 <= month <= 12 && 1 <= day <= 31 && day <= spec_month_max(month)),
            },
    {
        if !(1 <= month && month <= 12) {
            return Err(
                String::from_str("Month value within GMonthDay should lie between 1 and 12"),
            );
        }
        if !(1 <= day && day <= 31) {
            return Err(String::from_str("Day value within GMonthDay should lie between 1 and 31"));
        }
        if day > month_max(month) {
            return Err(String::from_str("Day value within GMonthDay is to big for specified month"));
        }
        Ok(GMonthDay { month, day, timezone })
    }

    /// The wire form: `--MM-DD`, followed by the zone offset when one is
    /// present.
    pub fn text(&self) -> (r: String)
        ensures
            r@ == spec_gmonthday_text(*self),
    {
        proof {
            reveal_strlit("--");
            reveal_strlit("-");
            reveal_strlit("+");
            reveal_strlit(":");
        }
        let mut out = String::from_str("--");
        append_dec_padded(&mut out, self.month as u64, 2);
        out.append("-");
        append_dec_padded(&mut out, self.day as u64, 2);
        proof {
            assert(out@ =~= spec_gmonthday_chars(self.month, self.day));
        }
        match &self.timezone {
            Some(m) => {
                let m = *m;
                if m >= 0 {
                    out.append("+");
                } else {
                    out.append("-");
                }
                let magnitude = if m >= 0 {
                    m as u64
                } else {
                    (-(m as i64)) as u64
                };
                proof {
                    assert(magnitude == abs(m as int));
                }
                append_dec_padded(&mut out, magnitude / 60, 2);
                out.append(":");
                append_dec_padded(&mut out, magnitude % 60, 2);
                proof {
                    assert(out@ =~= spec_gmonthday_text(*self));
                }
            },
            None => {
                proof {
                    assert(out@ =~= spec_gmonthday_text(*self));
                }
            },
        }
        out
    }
}

/// The `<sync:update>` extension body.
#[derive(Debug, PartialEq, Eq)]
pub struct Sync {
    /// The XML namespace for the consolidate extension.
    pub xmlns: String,
    /// The expiry day the domain is aligned to.
    pub exp: StringValue,
}

impl Sync {
    pub fn new(expiration: GMonthDay) -> (r: Sync)
        ensures
            r.xmlns@ == XMLNS@,
            r.exp@ == spec_gmonthday_text(expiration),
    {
        Sync { xmlns: String::from_str(XMLNS), exp: StringValue(expiration.text()) }
    }
}

impl EppExtension for Sync {
    /// `<sync:update xmlns:sync=".."><sync:expMonthDay>--MM-DD</sync:expMonthDay></sync:update>`
    open spec fn spec_ext_node(&self) -> SpecNode {
        SpecNode::Elem {
            name: "sync:update"@,
            attrs: seq![SpecAttr { name: "xmlns:sync"@, value: self.xmlns@ }],
            children: seq![spec_text_node("sync:expMonthDay"@, self.exp@)],
        }
    }

    fn ext_node(&self) -> (r: XmlNode) {
        let mut attrs: Vec<XmlAttr> = Vec::new();
        attrs.push(attr("xmlns:sync", String::from_str(self.xmlns.as_str())));
        let mut children: Vec<XmlNode> = Vec::new();
        children.push(text_node("sync:expMonthDay", String::from_str(self.exp.as_str())));
        proof {
            assert(attrs_view(attrs) =~= self.spec_ext_node()->Elem_attrs);
            assert(children_view(children) =~= self.spec_ext_node()->Elem_children);
        }
        elem_with_attrs("sync:update", attrs, children)
    }
}

impl Transaction<Sync> for DomainUpdate {
    type Response = <DomainUpdate as Transaction<NoExtension>>::Response;

    type ExtensionResponse = NoExtension;
}

/// A consolidate extension routed to a namestore subproduct: both
/// fragments side by side under the response's `<extension>` tag.
#[derive(Debug, PartialEq, Eq)]
pub struct SyncWithNameStore {
    pub sync: Sync,
    pub namestore: NameStore,
}

impl EppExtension for SyncWithNameStore {
    /// The sync body followed by the namestore body, wrapped together.
    open spec fn spec_ext_node(&self) -> SpecNode {
        SpecNode::Elem {
            name: "extensionGroup"@,
            attrs: Seq::empty(),
            children: seq![self.sync.spec_ext_node(), self.namestore.spec_ext_node()],
        }
    }

    fn ext_node(&self) -> (r: XmlNode) {
        let mut children: Vec<XmlNode> = Vec::new();
        children.push(self.sync.ext_node());
        children.push(self.namestore.ext_node());
        proof {
            assert(children_view(children) =~= self.spec_ext_node()->Elem_children);
        }
        crate::xml::elem("extensionGroup", children)
    }
}

impl Transaction<SyncWithNameStore> for DomainUpdate {
    type Response = <DomainUpdate as Transaction<NoExtension>>::Response;

    type ExtensionResponse = NameStore;
}

} // verus!

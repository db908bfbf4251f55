//! The document states of the purchase and quality modules, with the numeric
//! codes that the pages send.
use vstd::prelude::*;

verus! {

/// State of a purchase order.
#[derive(PartialEq, Eq, Structural, Clone, Copy, Debug)]
pub enum PurchaseOrderStatus {
    Draft,
    Confirmed,
    PartiallyReceived,
    Received,
    Closed,
    Cancelled,
    PendingApproval,
}

impl PurchaseOrderStatus {
    /// The code that forms and query strings carry for this state.
    pub open spec fn spec_code(self) -> i16 {
        match self {
            PurchaseOrderStatus::Draft => 1,
            PurchaseOrderStatus::Confirmed => 2,
            PurchaseOrderStatus::PartiallyReceived => 3,
            PurchaseOrderStatus::Received => 4,
            PurchaseOrderStatus::Closed => 5,
            PurchaseOrderStatus::Cancelled => 6,
            PurchaseOrderStatus::PendingApproval => 7,
        }
    }

    pub fn code(&self) -> (c: i16)
        ensures
            c == self.spec_code(),
    {
        match self {
            PurchaseOrderStatus::Draft => 1,
            PurchaseOrderStatus::Confirmed => 2,
            PurchaseOrderStatus::PartiallyReceived => 3,
            PurchaseOrderStatus::Received => 4,
            PurchaseOrderStatus::Closed => 5,
            PurchaseOrderStatus::Cancelled => 6,
            PurchaseOrderStatus::PendingApproval => 7,
        }
    }

    /// The state a code stands for, if any.
    pub open spec fn from_code(c: i16) -> Option<Self> {
        match c {
            1 => Some(PurchaseOrderStatus::Draft),
            2 => Some(PurchaseOrderStatus::Confirmed),
            3 => Some(PurchaseOrderStatus::PartiallyReceived),
            4 => Some(PurchaseOrderStatus::Received),
            5 => Some(PurchaseOrderStatus::Closed),
            6 => Some(PurchaseOrderStatus::Cancelled),
            7 => Some(PurchaseOrderStatus::PendingApproval),
            _ => None,
        }
    }

    pub fn from_i16(c: i16) -> (r: Option<Self>)
        ensures
            r == Self::from_code(c),
            r matches Some(s) ==> s.spec_code() == c,
            r is None ==> forall|s: Self| s.spec_code() != c,
    {
        match c {
            1 => Some(PurchaseOrderStatus::Draft),
            2 => Some(PurchaseOrderStatus::Confirmed),
            3 => Some(PurchaseOrderStatus::PartiallyReceived),
            4 => Some(PurchaseOrderStatus::Received),
            5 => Some(PurchaseOrderStatus::Closed),
            6 => Some(PurchaseOrderStatus::Cancelled),
            7 => Some(PurchaseOrderStatus::PendingApproval),
            _ => None,
        }
    }
}

/// How far a purchase order has been invoiced.
#[derive(PartialEq, Eq, Structural, Clone, Copy, Debug)]
pub enum OrderInvoiceStatus {
    NoInvoice,
    ToInvoice,
    FullyInvoiced,
}

/// State of a purchase invoice in the general ledger.
#[derive(PartialEq, Eq, Structural, Clone, Copy, Debug)]
pub enum InvoiceStatus {
    Draft,
    Posted,
    Cancelled,
}

impl InvoiceStatus {
    /// The code that forms and query strings carry for this state.
    pub open spec fn spec_code(self) -> i16 {
        match self {
            InvoiceStatus::Draft => 1,
            InvoiceStatus::Posted => 2,
            InvoiceStatus::Cancelled => 3,
        }
    }

    pub fn code(&self) -> (c: i16)
        ensures
            c == self.spec_code(),
    {
        match self {
            InvoiceStatus::Draft => 1,
            InvoiceStatus::Posted => 2,
            InvoiceStatus::Cancelled => 3,
        }
    }

    /// The state a code stands for, if any.
    pub open spec fn from_code(c: i16) -> Option<Self> {
        match c {
            1 => Some(InvoiceStatus::Draft),
            2 => Some(InvoiceStatus::Posted),
            3 => Some(InvoiceStatus::Cancelled),
            _ => None,
        }
    }

    pub fn from_i16(c: i16) -> (r: Option<Self>)
        ensures
            r == Self::from_code(c),
            r matches Some(s) ==> s.spec_code() == c,
            r is None ==> forall|s: Self| s.spec_code() != c,
    {
        match c {
            1 => Some(InvoiceStatus::Draft),
            2 => Some(InvoiceStatus::Posted),
            3 => Some(InvoiceStatus::Cancelled),
            _ => None,
        }
    }
}

/// State of a purchase quotation.
#[derive(PartialEq, Eq, Structural, Clone, Copy, Debug)]
pub enum PurchaseQuotationStatus {
    Draft,
    Active,
    Expired,
    Cancelled,
}

impl PurchaseQuotationStatus {
    /// The code that forms and query strings carry for this state.
    pub open spec fn spec_code(self) -> i16 {
        match self {
            PurchaseQuotationStatus::Draft => 1,
            PurchaseQuotationStatus::Active => 2,
            PurchaseQuotationStatus::Expired => 3,
            PurchaseQuotationStatus::Cancelled => 4,
        }
    }

    pub fn code(&self) -> (c: i16)
        ensures
            c == self.spec_code(),
    {
        match self {
            PurchaseQuotationStatus::Draft => 1,
            PurchaseQuotationStatus::Active => 2,
            PurchaseQuotationStatus::Expired => 3,
            PurchaseQuotationStatus::Cancelled => 4,
        }
    }

    /// The state a code stands for, if any.
    pub open spec fn from_code(c: i16) -> Option<Self> {
        match c {
            1 => Some(PurchaseQuotationStatus::Draft),
            2 => Some(PurchaseQuotationStatus::Active),
            3 => Some(PurchaseQuotationStatus::Expired),
            4 => Some(PurchaseQuotationStatus::Cancelled),
            _ => None,
        }
    }

    pub fn from_i16(c: i16) -> (r: Option<Self>)
        ensures
            r == Self::from_code(c),
            r matches Some(s) ==> s.spec_code() == c,
            r is None ==> forall|s: Self| s.spec_code() != c,
    {
        match c {
            1 => Some(PurchaseQuotationStatus::Draft),
            2 => Some(PurchaseQuotationStatus::Active),
            3 => Some(PurchaseQuotationStatus::Expired),
            4 => Some(PurchaseQuotationStatus::Cancelled),
            _ => None,
        }
    }
}

/// State of a purchase reconciliation.
#[derive(PartialEq, Eq, Structural, Clone, Copy, Debug)]
pub enum PurchaseReconStatus {
    Draft,
    Confirmed,
    Settled,
}

impl PurchaseReconStatus {
    /// The code that forms and query strings carry for this state.
    pub open spec fn spec_code(self) -> i16 {
        match self {
            PurchaseReconStatus::Draft => 1,
            PurchaseReconStatus::Confirmed => 2,
            PurchaseReconStatus::Settled => 3,
        }
    }

    pub fn code(&self) -> (c: i16)
        ensures
            c == self.spec_code(),
    {
        match self {
            PurchaseReconStatus::Draft => 1,
            PurchaseReconStatus::Confirmed => 2,
            PurchaseReconStatus::Settled => 3,
        }
    }

    /// The state a code stands for, if any.
    pub open spec fn from_code(c: i16) -> Option<Self> {
        match c {
            1 => Some(PurchaseReconStatus::Draft),
            2 => Some(PurchaseReconStatus::Confirmed),
            3 => Some(PurchaseReconStatus::Settled),
            _ => None,
        }
    }

    pub fn from_i16(c: i16) -> (r: Option<Self>)
        ensures
            r == Self::from_code(c),
            r matches Some(s) ==> s.spec_code() == c,
            r is None ==> forall|s: Self| s.spec_code() != c,
    {
        match c {
            1 => Some(PurchaseReconStatus::Draft),
            2 => Some(PurchaseReconStatus::Confirmed),
            3 => Some(PurchaseReconStatus::Settled),
            _ => None,
        }
    }
}

/// State of a purchase return.
#[derive(PartialEq, Eq, Structural, Clone, Copy, Debug)]
pub enum PurchaseReturnStatus {
    Draft,
    Confirmed,
    Shipped,
    Settled,
    Cancelled,
}

impl PurchaseReturnStatus {
    /// The code that forms and query strings carry for this state.
    pub open spec fn spec_code(self) -> i16 {
        match self {
            PurchaseReturnStatus::Draft => 1,
            PurchaseReturnStatus::Confirmed => 2,
            PurchaseReturnStatus::Shipped => 3,
            PurchaseReturnStatus::Settled => 4,
            PurchaseReturnStatus::Cancelled => 5,
        }
    }

    pub fn code(&self) -> (c: i16)
        ensures
            c == self.spec_code(),
    {
        match self {
            PurchaseReturnStatus::Draft => 1,
            PurchaseReturnStatus::Confirmed => 2,
            PurchaseReturnStatus::Shipped => 3,
            PurchaseReturnStatus::Settled => 4,
            PurchaseReturnStatus::Cancelled => 5,
        }
    }

    /// The state a code stands for, if any.
    pub open spec fn from_code(c: i16) -> Option<Self> {
        match c {
            1 => Some(PurchaseReturnStatus::Draft),
            2 => Some(PurchaseReturnStatus::Confirmed),
            3 => Some(PurchaseReturnStatus::Shipped),
            4 => Some(PurchaseReturnStatus::Settled),
            5 => Some(PurchaseReturnStatus::Cancelled),
            _ => None,
        }
    }

    pub fn from_i16(c: i16) -> (r: Option<Self>)
        ensures
            r == Self::from_code(c),
            r matches Some(s) ==> s.spec_code() == c,
            r is None ==> forall|s: Self| s.spec_code() != c,
    {
        match c {
            1 => Some(PurchaseReturnStatus::Draft),
            2 => Some(PurchaseReturnStatus::Confirmed),
            3 => Some(PurchaseReturnStatus::Shipped),
            4 => Some(PurchaseReturnStatus::Settled),
            5 => Some(PurchaseReturnStatus::Cancelled),
            _ => None,
        }
    }
}

/// State of a payment request.
#[derive(PartialEq, Eq, Structural, Clone, Copy, Debug)]
pub enum PaymentStatus {
    Draft,
    Approved,
    Paid,
    Cancelled,
}

impl PaymentStatus {
    /// The code that forms and query strings carry for this state.
    pub open spec fn spec_code(self) -> i16 {
        match self {
            PaymentStatus::Draft => 1,
            PaymentStatus::Approved => 2,
            PaymentStatus::Paid => 3,
            PaymentStatus::Cancelled => 4,
        }
    }

    pub fn code(&self) -> (c: i16)
        ensures
            c == self.spec_code(),
    {
        match self {
            PaymentStatus::Draft => 1,
            PaymentStatus::Approved => 2,
            PaymentStatus::Paid => 3,
            PaymentStatus::Cancelled => 4,
        }
    }

    /// The state a code stands for, if any.
    pub open spec fn from_code(c: i16) -> Option<Self> {
        match c {
            1 => Some(PaymentStatus::Draft),
            2 => Some(PaymentStatus::Approved),
            3 => Some(PaymentStatus::Paid),
            4 => Some(PaymentStatus::Cancelled),
            _ => None,
        }
    }

    pub fn from_i16(c: i16) -> (r: Option<Self>)
        ensures
            r == Self::from_code(c),
            r matches Some(s) ==> s.spec_code() == c,
            r is None ==> forall|s: Self| s.spec_code() != c,
    {
        match c {
            1 => Some(PaymentStatus::Draft),
            2 => Some(PaymentStatus::Approved),
            3 => Some(PaymentStatus::Paid),
            4 => Some(PaymentStatus::Cancelled),
            _ => None,
        }
    }
}

/// State of a miscellaneous purchase request.
#[derive(PartialEq, Eq, Structural, Clone, Copy, Debug)]
pub enum MiscRequestStatus {
    Draft,
    Approved,
    Purchasing,
    Received,
    Closed,
    Cancelled,
}

impl MiscRequestStatus {
    /// The code that forms and query strings carry for this state.
    pub open spec fn spec_code(self) -> i16 {
        match self {
            MiscRequestStatus::Draft => 1,
            MiscRequestStatus::Approved => 2,
            MiscRequestStatus::Purchasing => 3,
            MiscRequestStatus::Received => 4,
            MiscRequestStatus::Closed => 5,
            MiscRequestStatus::Cancelled => 6,
        }
    }

    pub fn code(&self) -> (c: i16)
        ensures
            c == self.spec_code(),
    {
        match self {
            MiscRequestStatus::Draft => 1,
            MiscRequestStatus::Approved => 2,
            MiscRequestStatus::Purchasing => 3,
            MiscRequestStatus::Received => 4,
            MiscRequestStatus::Closed => 5,
            MiscRequestStatus::Cancelled => 6,
        }
    }

    /// The state a code stands for, if any.
    pub open spec fn from_code(c: i16) -> Option<Self> {
        match c {
            1 => Some(MiscRequestStatus::Draft),
            2 => Some(MiscRequestStatus::Approved),
            3 => Some(MiscRequestStatus::Purchasing),
            4 => Some(MiscRequestStatus::Received),
            5 => Some(MiscRequestStatus::Closed),
            6 => Some(MiscRequestStatus::Cancelled),
            _ => None,
        }
    }

    pub fn from_i16(c: i16) -> (r: Option<Self>)
        ensures
            r == Self::from_code(c),
            r matches Some(s) ==> s.spec_code() == c,
            r is None ==> forall|s: Self| s.spec_code() != c,
    {
        match c {
            1 => Some(MiscRequestStatus::Draft),
            2 => Some(MiscRequestStatus::Approved),
            3 => Some(MiscRequestStatus::Purchasing),
            4 => Some(MiscRequestStatus::Received),
            5 => Some(MiscRequestStatus::Closed),
            6 => Some(MiscRequestStatus::Cancelled),
            _ => None,
        }
    }
}

/// State of a material review board case.
#[derive(PartialEq, Eq, Structural, Clone, Copy, Debug)]
pub enum MRBStatus {
    Draft,
    UnderReview,
    Approved,
    Completed,
}

/// What a material review board decides to do with rejected material.
#[derive(PartialEq, Eq, Structural, Clone, Copy, Debug)]
pub enum MRBDisposition {
    Scrap,
    Return,
    Degrade,
    Rework,
}

impl MRBDisposition {
    /// The code that forms and query strings carry for this state.
    pub open spec fn spec_code(self) -> i16 {
        match self {
            MRBDisposition::Scrap => 1,
            MRBDisposition::Return => 2,
            MRBDisposition::Degrade => 3,
            MRBDisposition::Rework => 4,
        }
    }

    pub fn code(&self) -> (c: i16)
        ensures
            c == self.spec_code(),
    {
        match self {
            MRBDisposition::Scrap => 1,
            MRBDisposition::Return => 2,
            MRBDisposition::Degrade => 3,
            MRBDisposition::Rework => 4,
        }
    }

    /// The state a code stands for, if any.
    pub open spec fn from_code(c: i16) -> Option<Self> {
        match c {
            1 => Some(MRBDisposition::Scrap),
            2 => Some(MRBDisposition::Return),
            3 => Some(MRBDisposition::Degrade),
            4 => Some(MRBDisposition::Rework),
            _ => None,
        }
    }

    pub fn from_i16(c: i16) -> (r: Option<Self>)
        ensures
            r == Self::from_code(c),
            r matches Some(s) ==> s.spec_code() == c,
            r is None ==> forall|s: Self| s.spec_code() != c,
    {
        match c {
            1 => Some(MRBDisposition::Scrap),
            2 => Some(MRBDisposition::Return),
            3 => Some(MRBDisposition::Degrade),
            4 => Some(MRBDisposition::Rework),
            _ => None,
        }
    }
}

/// Who is responsible for a defect.
#[derive(PartialEq, Eq, Structural, Clone, Copy, Debug)]
pub enum ResponsibleParty {
    Internal,
    Supplier,
    Customer,
}

impl ResponsibleParty {
    /// The code that forms and query strings carry for this state.
    pub open spec fn spec_code(self) -> i16 {
        match self {
            ResponsibleParty::Internal => 1,
            ResponsibleParty::Supplier => 2,
            ResponsibleParty::Customer => 3,
        }
    }

    pub fn code(&self) -> (c: i16)
        ensures
            c == self.spec_code(),
    {
        match self {
            ResponsibleParty::Internal => 1,
            ResponsibleParty::Supplier => 2,
            ResponsibleParty::Customer => 3,
        }
    }

    /// The state a code stands for, if any.
    pub open spec fn from_code(c: i16) -> Option<Self> {
        match c {
            1 => Some(ResponsibleParty::Internal),
            2 => Some(ResponsibleParty::Supplier),
            3 => Some(ResponsibleParty::Customer),
            _ => None,
        }
    }

    pub fn from_i16(c: i16) -> (r: Option<Self>)
        ensures
            r == Self::from_code(c),
            r matches Some(s) ==> s.spec_code() == c,
            r is None ==> forall|s: Self| s.spec_code() != c,
    {
        match c {
            1 => Some(ResponsibleParty::Internal),
            2 => Some(ResponsibleParty::Supplier),
            3 => Some(ResponsibleParty::Customer),
            _ => None,
        }
    }
}

/// State of an inspection.
#[derive(PartialEq, Eq, Structural, Clone, Copy, Debug)]
pub enum InspectionStatus {
    Pending,
    Completed,
    Dispositioned,
}

/// Outcome of an inspection.
#[derive(PartialEq, Eq, Structural, Clone, Copy, Debug)]
pub enum InspectionResultType {
    Pass,
    Fail,
    Conditional,
}

impl InspectionResultType {
    /// The code that forms and query strings carry for this state.
    pub open spec fn spec_code(self) -> i16 {
        match self {
            InspectionResultType::Pass => 1,
            InspectionResultType::Fail => 2,
            InspectionResultType::Conditional => 3,
        }
    }

    pub fn code(&self) -> (c: i16)
        ensures
            c == self.spec_code(),
    {
        match self {
            InspectionResultType::Pass => 1,
            InspectionResultType::Fail => 2,
            InspectionResultType::Conditional => 3,
        }
    }

    /// The state a code stands for, if any.
    pub open spec fn from_code(c: i16) -> Option<Self> {
        match c {
            1 => Some(InspectionResultType::Pass),
            2 => Some(InspectionResultType::Fail),
            3 => Some(InspectionResultType::Conditional),
            _ => None,
        }
    }

    pub fn from_i16(c: i16) -> (r: Option<Self>)
        ensures
            r == Self::from_code(c),
            r matches Some(s) ==> s.spec_code() == c,
            r is None ==> forall|s: Self| s.spec_code() != c,
    {
        match c {
            1 => Some(InspectionResultType::Pass),
            2 => Some(InspectionResultType::Fail),
            3 => Some(InspectionResultType::Conditional),
            _ => None,
        }
    }
}

/// Kind of inspection.
#[derive(PartialEq, Eq, Structural, Clone, Copy, Debug)]
pub enum InspectionType {
    Iqc,
    Ipqc,
    Fqc,
    Oqc,
}

/// Document an inspection comes from.
#[derive(PartialEq, Eq, Structural, Clone, Copy, Debug)]
pub enum InspectionSourceType {
    ArrivalNotice,
    WorkOrderRouting,
    ShippingRequest,
    OutsourcingOrder,
    ProductionReceipt,
}

impl InspectionSourceType {
    /// The code that forms and query strings carry for this state.
    pub open spec fn spec_code(self) -> i16 {
        match self {
            InspectionSourceType::ArrivalNotice => 1,
            InspectionSourceType::WorkOrderRouting => 2,
            InspectionSourceType::ShippingRequest => 3,
            InspectionSourceType::OutsourcingOrder => 4,
            InspectionSourceType::ProductionReceipt => 5,
        }
    }

    pub fn code(&self) -> (c: i16)
        ensures
            c == self.spec_code(),
    {
        match self {
            InspectionSourceType::ArrivalNotice => 1,
            InspectionSourceType::WorkOrderRouting => 2,
            InspectionSourceType::ShippingRequest => 3,
            InspectionSourceType::OutsourcingOrder => 4,
            InspectionSourceType::ProductionReceipt => 5,
        }
    }

    /// The state a code stands for, if any.
    pub open spec fn from_code(c: i16) -> Option<Self> {
        match c {
            1 => Some(InspectionSourceType::ArrivalNotice),
            2 => Some(InspectionSourceType::WorkOrderRouting),
            3 => Some(InspectionSourceType::ShippingRequest),
            4 => Some(InspectionSourceType::OutsourcingOrder),
            5 => Some(InspectionSourceType::ProductionReceipt),
            _ => None,
        }
    }

    pub fn from_i16(c: i16) -> (r: Option<Self>)
        ensures
            r == Self::from_code(c),
            r matches Some(s) ==> s.spec_code() == c,
            r is None ==> forall|s: Self| s.spec_code() != c,
    {
        match c {
            1 => Some(InspectionSourceType::ArrivalNotice),
            2 => Some(InspectionSourceType::WorkOrderRouting),
            3 => Some(InspectionSourceType::ShippingRequest),
            4 => Some(InspectionSourceType::OutsourcingOrder),
            5 => Some(InspectionSourceType::ProductionReceipt),
            _ => None,
        }
    }
}

/// A purchase order status and its code name each other: reading a state's
/// code gives the state back, and a code that is read names a state with
/// that code.
pub proof fn lemma_purchase_order_status_code_roundtrip(s: PurchaseOrderStatus, c: i16)
    ensures
        PurchaseOrderStatus::from_code(s.spec_code()) == Some(s),
        PurchaseOrderStatus::from_code(c) matches Some(t) ==> t.spec_code() == c,
{
}

/// A invoice status and its code name each other: reading a state's
/// code gives the state back, and a code that is read names a state with
/// that code.
pub proof fn lemma_invoice_status_code_roundtrip(s: InvoiceStatus, c: i16)
    ensures
        InvoiceStatus::from_code(s.spec_code()) == Some(s),
        InvoiceStatus::from_code(c) matches Some(t) ==> t.spec_code() == c,
{
}

/// A purchase quotation status and its code name each other: reading a state's
/// code gives the state back, and a code that is read names a state with
/// that code.
pub proof fn lemma_purchase_quotation_status_code_roundtrip(s: PurchaseQuotationStatus, c: i16)
    ensures
        PurchaseQuotationStatus::from_code(s.spec_code()) == Some(s),
        PurchaseQuotationStatus::from_code(c) matches Some(t) ==> t.spec_code() == c,
{
}

/// A purchase recon status and its code name each other: reading a state's
/// code gives the state back, and a code that is read names a state with
/// that code.
pub proof fn lemma_purchase_recon_status_code_roundtrip(s: PurchaseReconStatus, c: i16)
    ensures
        PurchaseReconStatus::from_code(s.spec_code()) == Some(s),
        PurchaseReconStatus::from_code(c) matches Some(t) ==> t.spec_code() == c,
{
}

/// A purchase return status and its code name each other: reading a state's
/// code gives the state back, and a code that is read names a state with
/// that code.
pub proof fn lemma_purchase_return_status_code_roundtrip(s: PurchaseReturnStatus, c: i16)
    ensures
        PurchaseReturnStatus::from_code(s.spec_code()) == Some(s),
        PurchaseReturnStatus::from_code(c) matches Some(t) ==> t.spec_code() == c,
{
}

/// A payment status and its code name each other: reading a state's
/// code gives the state back, and a code that is read names a state with
/// that code.
pub proof fn lemma_payment_status_code_roundtrip(s: PaymentStatus, c: i16)
    ensures
        PaymentStatus::from_code(s.spec_code()) == Some(s),
        PaymentStatus::from_code(c) matches Some(t) ==> t.spec_code() == c,
{
}

/// A misc request status and its code name each other: reading a state's
/// code gives the state back, and a code that is read names a state with
/// that code.
pub proof fn lemma_misc_request_status_code_roundtrip(s: MiscRequestStatus, c: i16)
    ensures
        MiscRequestStatus::from_code(s.spec_code()) == Some(s),
        MiscRequestStatus::from_code(c) matches Some(t) ==> t.spec_code() == c,
{
}

/// An MRB disposition and its code name each other: reading a state's
/// code gives the state back, and a code that is read names a state with
/// that code.
pub proof fn lemma_mrb_disposition_code_roundtrip(s: MRBDisposition, c: i16)
    ensures
        MRBDisposition::from_code(s.spec_code()) == Some(s),
        MRBDisposition::from_code(c) matches Some(t) ==> t.spec_code() == c,
{
}

/// A responsible party and its code name each other: reading a state's
/// code gives the state back, and a code that is read names a state with
/// that code.
pub proof fn lemma_responsible_party_code_roundtrip(s: ResponsibleParty, c: i16)
    ensures
        ResponsibleParty::from_code(s.spec_code()) == Some(s),
        ResponsibleParty::from_code(c) matches Some(t) ==> t.spec_code() == c,
{
}

/// A inspection result type and its code name each other: reading a state's
/// code gives the state back, and a code that is read names a state with
/// that code.
pub proof fn lemma_inspection_result_type_code_roundtrip(s: InspectionResultType, c: i16)
    ensures
        InspectionResultType::from_code(s.spec_code()) == Some(s),
        InspectionResultType::from_code(c) matches Some(t) ==> t.spec_code() == c,
{
}

/// A inspection source type and its code name each other: reading a state's
/// code gives the state back, and a code that is read names a state with
/// that code.
pub proof fn lemma_inspection_source_type_code_roundtrip(s: InspectionSourceType, c: i16)
    ensures
        InspectionSourceType::from_code(s.spec_code()) == Some(s),
        InspectionSourceType::from_code(c) matches Some(t) ==> t.spec_code() == c,
{
}

} // verus!

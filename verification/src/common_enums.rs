//! Enumerations shared by the connectors: currencies, payment method kinds,
//! attempt, refund and dispute statuses, card networks and countries.

use vstd::prelude::*;

use crate::text::{i64_to_decimal, int_decimal};

verus! {

/// The three-letter ISO 4217 currency code of a payment amount.
#[derive(Clone, Copy, Debug, PartialEq, Eq, Structural, Hash)]
pub enum Currency {
    AED,
    AFN,
    ALL,
    AMD,
    ANG,
    AOA,
    ARS,
    AUD,
    AWG,
    AZN,
    BAM,
    BBD,
    BDT,
    BGN,
    BHD,
    BIF,
    BMD,
    BND,
    BOB,
    BRL,
    BSD,
    BTN,
    BWP,
    BYN,
    BZD,
    CAD,
    CDF,
    CHF,
    CLF,
    CLP,
    CNY,
    COP,
    CRC,
    CUC,
    CUP,
    CVE,
    CZK,
    DJF,
    DKK,
    DOP,
    DZD,
    EGP,
    ERN,
    ETB,
    EUR,
    FJD,
    FKP,
    GBP,
    GEL,
    GHS,
    GIP,
    GMD,
    GNF,
    GTQ,
    GYD,
    HKD,
    HNL,
    HRK,
    HTG,
    HUF,
    IDR,
    ILS,
    INR,
    IQD,
    IRR,
    ISK,
    JMD,
    JOD,
    JPY,
    KES,
    KGS,
    KHR,
    KMF,
    KPW,
    KRW,
    KWD,
    KYD,
    KZT,
    LAK,
    LBP,
    LKR,
    LRD,
    LSL,
    LYD,
    MAD,
    MDL,
    MGA,
    MKD,
    MMK,
    MNT,
    MOP,
    MRU,
    MUR,
    MVR,
    MWK,
    MXN,
    MYR,
    MZN,
    NAD,
    NGN,
    NIO,
    NOK,
    NPR,
    NZD,
    OMR,
    PAB,
    PEN,
    PGK,
    PHP,
    PKR,
    PLN,
    PYG,
    QAR,
    RON,
    RSD,
    RUB,
    RWF,
    SAR,
    SBD,
    SCR,
    SDG,
    SEK,
    SGD,
    SHP,
    SLE,
    SLL,
    SOS,
    SRD,
    SSP,
    STD,
    STN,
    SVC,
    SYP,
    SZL,
    THB,
    TJS,
    TMT,
    TND,
    TOP,
    TRY,
    TTD,
    TWD,
    TZS,
    UAH,
    UGX,
    USD,
    UYU,
    UZS,
    VES,
    VND,
    VUV,
    WST,
    XAF,
    XCD,
    XOF,
    XPF,
    YER,
    ZAR,
    ZMW,
    ZWL,
}

impl Default for Currency {
    fn default() -> (r: Self)
        ensures
            r == Currency::USD,
    {
        Currency::USD
    }
}

/// Card brand reported by Samsung Pay.
#[derive(Clone, Copy, Debug, PartialEq, Eq, Structural, Hash)]
pub enum SamsungPayCardBrand {
    Visa,
    MasterCard,
    Amex,
    Discover,
    Unknown,
}

/// Kind of bank account.
#[derive(Clone, Copy, Debug, PartialEq, Eq, Structural, Hash)]
pub enum BankType {
    Checking,
    Savings,
}

/// Holder of a bank account.
#[derive(Clone, Copy, Debug, PartialEq, Eq, Structural, Hash)]
pub enum BankHolderType {
    Personal,
    Business,
}

/// Banks known to bank redirect and bank debit payment methods.
#[derive(Clone, Copy, Debug, PartialEq, Eq, Structural, Hash)]
pub enum BankNames {
    AmericanExpress,
    AffinBank,
    AgroBank,
    AllianceBank,
    AmBank,
    BankOfAmerica,
    BankOfChina,
    BankIslam,
    BankMuamalat,
    BankRakyat,
    BankSimpananNasional,
    Barclays,
    BlikPSP,
    CapitalOne,
    Chase,
    Citi,
    CimbBank,
    Discover,
    NavyFederalCreditUnion,
    PentagonFederalCreditUnion,
    SynchronyBank,
    WellsFargo,
    AbnAmro,
    AsnBank,
    Bunq,
    Handelsbanken,
    HongLeongBank,
    HsbcBank,
    Ing,
    Knab,
    KuwaitFinanceHouse,
    Moneyou,
    Rabobank,
    Regiobank,
    Revolut,
    SnsBank,
    TriodosBank,
    VanLanschot,
    ArzteUndApothekerBank,
    AustrianAnadiBankAg,
    BankAustria,
    Bank99Ag,
    BankhausCarlSpangler,
    BankhausSchelhammerUndSchatteraAg,
    BankMillennium,
    BankPEKAOSA,
    BawagPskAg,
    BksBankAg,
    BrullKallmusBankAg,
    BtvVierLanderBank,
    CapitalBankGraweGruppeAg,
    CeskaSporitelna,
    Dolomitenbank,
    EasybankAg,
    EPlatbyVUB,
    ErsteBankUndSparkassen,
    FrieslandBank,
    HypoAlpeadriabankInternationalAg,
    HypoNoeLbFurNiederosterreichUWien,
    HypoOberosterreichSalzburgSteiermark,
    HypoTirolBankAg,
    HypoVorarlbergBankAg,
    HypoBankBurgenlandAktiengesellschaft,
    KomercniBanka,
    MBank,
    MarchfelderBank,
    Maybank,
    OberbankAg,
    OsterreichischeArzteUndApothekerbank,
    OcbcBank,
    PayWithING,
    PlaceZIPKO,
    PlatnoscOnlineKartaPlatnicza,
    PosojilnicaBankEGen,
    PostovaBanka,
    PublicBank,
    RaiffeisenBankengruppeOsterreich,
    RhbBank,
    SchelhammerCapitalBankAg,
    StandardCharteredBank,
    SchoellerbankAg,
    SpardaBankWien,
    SporoPay,
    SantanderPrzelew24,
    TatraPay,
    Viamo,
    VolksbankGruppe,
    VolkskreditbankAg,
    VrBankBraunau,
    UobBank,
    PayWithAliorBank,
    BankiSpoldzielcze,
    PayWithInteligo,
    BNPParibasPoland,
    BankNowySA,
    CreditAgricole,
    PayWithBOS,
    PayWithCitiHandlowy,
    PayWithPlusBank,
    ToyotaBank,
    VeloBank,
    ETransferPocztowy24,
    PlusBank,
    EtransferPocztowy24,
    BankiSpbdzielcze,
    BankNowyBfgSa,
    GetinBank,
    Blik,
    NoblePay,
    IdeaBank,
    EnveloBank,
    NestPrzelew,
    MbankMtransfer,
    Inteligo,
    PbacZIpko,
    BnpParibas,
    BankPekaoSa,
    VolkswagenBank,
    AliorBank,
    Boz,
    BangkokBank,
    KrungsriBank,
    KrungThaiBank,
    TheSiamCommercialBank,
    KasikornBank,
    OpenBankSuccess,
    OpenBankFailure,
    OpenBankCancelled,
    Aib,
    BankOfScotland,
    DanskeBank,
    FirstDirect,
    FirstTrust,
    Halifax,
    Lloyds,
    Monzo,
    NatWest,
    NationwideBank,
    RoyalBankOfScotland,
    Starling,
    TsbBank,
    TescoBank,
    UlsterBank,
    Yoursafe,
    N26,
    NationaleNederlanden,
}

/// Regulated name of a card network, used for US debit routing rules.
#[derive(Clone, Debug, PartialEq, Eq, Hash)]
pub enum RegulatedName {
    NonExemptWithFraud,
    Unknown(String),
}

/// How the funds of an authorized payment are captured.
#[derive(Clone, Copy, Debug, PartialEq, Eq, Structural, Hash)]
pub enum CaptureMethod {
    Automatic,
    Manual,
    ManualMultiple,
    Scheduled,
    SequentialAutomatic,
}

impl Default for CaptureMethod {
    fn default() -> (r: Self)
        ensures
            r == CaptureMethod::Automatic,
    {
        CaptureMethod::Automatic
    }
}

/// How a payment method may be used for future payments.
#[derive(Clone, Copy, Debug, PartialEq, Eq, Structural, Hash)]
pub enum FutureUsage {
    OffSession,
    OnSession,
}

impl Default for FutureUsage {
    fn default() -> (r: Self)
        ensures
            r == FutureUsage::OnSession,
    {
        FutureUsage::OnSession
    }
}

/// The payment experience the customer goes through.
#[derive(Clone, Copy, Debug, PartialEq, Eq, Structural, Hash)]
pub enum PaymentExperience {
    RedirectToUrl,
    InvokeSdkClient,
    DisplayQrCode,
    OneClick,
    LinkWallet,
    InvokePaymentApp,
    DisplayWaitScreen,
    CollectOtp,
}

impl Default for PaymentExperience {
    fn default() -> (r: Self)
        ensures
            r == PaymentExperience::RedirectToUrl,
    {
        PaymentExperience::RedirectToUrl
    }
}

/// Sub type of a payment method, such as a wallet brand.
#[derive(Clone, Copy, Debug, PartialEq, Eq, Structural, Hash)]
pub enum PaymentMethodType {
    Ach,
    Affirm,
    AfterpayClearpay,
    Alfamart,
    AliPay,
    AliPayHk,
    Alma,
    AmazonPay,
    ApplePay,
    Atome,
    Bacs,
    BancontactCard,
    Becs,
    Benefit,
    Bizum,
    Blik,
    Boleto,
    BcaBankTransfer,
    BniVa,
    BriVa,
    CardRedirect,
    CimbVa,
    ClassicReward,
    Credit,
    CryptoCurrency,
    Cashapp,
    Dana,
    DanamonVa,
    Debit,
    DuitNow,
    Efecty,
    Eft,
    Eps,
    Fps,
    Evoucher,
    Giropay,
    Givex,
    GooglePay,
    GoPay,
    Gcash,
    Ideal,
    Interac,
    Indomaret,
    Klarna,
    KakaoPay,
    LocalBankRedirect,
    MandiriVa,
    Knet,
    MbWay,
    MobilePay,
    Momo,
    MomoAtm,
    Multibanco,
    OnlineBankingThailand,
    OnlineBankingCzechRepublic,
    OnlineBankingFinland,
    OnlineBankingFpx,
    OnlineBankingPoland,
    OnlineBankingSlovakia,
    Oxxo,
    PagoEfectivo,
    PermataBankTransfer,
    OpenBankingUk,
    PayBright,
    Paypal,
    Paze,
    Pix,
    PaySafeCard,
    Przelewy24,
    PromptPay,
    Pse,
    RedCompra,
    RedPagos,
    SamsungPay,
    Sepa,
    SepaBankTransfer,
    Sofort,
    Swish,
    TouchNGo,
    Trustly,
    Twint,
    UpiCollect,
    UpiIntent,
    Vipps,
    VietQr,
    Venmo,
    Walley,
    WeChatPay,
    SevenEleven,
    Lawson,
    MiniStop,
    FamilyMart,
    Seicomart,
    PayEasy,
    LocalBankTransfer,
    Mifinity,
    OpenBankingPIS,
    DirectCarrierBilling,
    InstantBankTransfer,
    InstantBankTransferFinland,
    InstantBankTransferPoland,
    RevolutPay,
}

/// Currency unit a connector accepts amounts in.
#[derive(Clone, Copy, Debug, PartialEq, Eq, Structural, Hash)]
pub enum CurrencyUnit {
    Base,
    Minor,
}

/// Status of a refund.
#[derive(Clone, Copy, Debug, PartialEq, Eq, Structural, Hash)]
pub enum RefundStatus {
    Failure,
    ManualReview,
    Pending,
    Success,
    TransactionFailure,
}

impl Default for RefundStatus {
    fn default() -> (r: Self)
        ensures
            r == RefundStatus::Pending,
    {
        RefundStatus::Pending
    }
}

/// Status of a payment attempt.
#[derive(Clone, Copy, Debug, PartialEq, Eq, Structural, Hash)]
pub enum AttemptStatus {
    Started,
    AuthenticationFailed,
    RouterDeclined,
    AuthenticationPending,
    AuthenticationSuccessful,
    Authorized,
    AuthorizationFailed,
    Charged,
    Authorizing,
    CodInitiated,
    Voided,
    VoidInitiated,
    CaptureInitiated,
    CaptureFailed,
    VoidFailed,
    AutoRefunded,
    PartialCharged,
    PartialChargedAndChargeable,
    Unresolved,
    Pending,
    Failure,
    PaymentMethodAwaited,
    ConfirmationAwaited,
    DeviceDataCollectionPending,
    IntegrityFailure,
    Unknown,
}

impl Default for AttemptStatus {
    fn default() -> (r: Self)
        ensures
            r == AttemptStatus::Pending,
    {
        AttemptStatus::Pending
    }
}

/// Status of a dispute.
#[derive(Clone, Copy, Debug, PartialEq, Eq, Structural, Hash)]
pub enum DisputeStatus {
    DisputeOpened,
    DisputeExpired,
    DisputeAccepted,
    DisputeCancelled,
    DisputeChallenged,
    DisputeWon,
    DisputeLost,
}

impl Default for DisputeStatus {
    fn default() -> (r: Self)
        ensures
            r == DisputeStatus::DisputeOpened,
    {
        DisputeStatus::DisputeOpened
    }
}

/// Stage of a dispute.
#[derive(Clone, Copy, Debug, PartialEq, Eq, Structural, Hash)]
pub enum DisputeStage {
    PreDispute,
    Dispute,
    PreArbitration,
}

impl Default for DisputeStage {
    fn default() -> (r: Self)
        ensures
            r == DisputeStage::Dispute,
    {
        DisputeStage::Dispute
    }
}

/// Card network of a card.
#[derive(Clone, Copy, Debug, PartialEq, Eq, Structural, Hash)]
pub enum CardNetwork {
    Visa,
    Mastercard,
    AmericanExpress,
    JCB,
    DinersClub,
    Discover,
    CartesBancaires,
    UnionPay,
    Interac,
    RuPay,
    Maestro,
    Star,
    Pulse,
    Accel,
    Nyce,
}

/// Kind of payment method, such as card or wallet.
#[derive(Clone, Copy, Debug, PartialEq, Eq, Structural, Hash)]
pub enum PaymentMethod {
    Card,
    CardRedirect,
    PayLater,
    Wallet,
    BankRedirect,
    BankTransfer,
    Crypto,
    BankDebit,
    Reward,
    RealTimePayment,
    Upi,
    Voucher,
    GiftCard,
    OpenBanking,
    MobilePayment,
}

impl Default for PaymentMethod {
    fn default() -> (r: Self)
        ensures
            r == PaymentMethod::Card,
    {
        PaymentMethod::Card
    }
}

/// Cardholder authentication requested for a payment.
#[derive(Clone, Copy, Debug, PartialEq, Eq, Structural, Hash)]
pub enum AuthenticationType {
    ThreeDs,
    NoThreeDs,
}

impl Default for AuthenticationType {
    fn default() -> (r: Self)
        ensures
            r == AuthenticationType::NoThreeDs,
    {
        AuthenticationType::NoThreeDs
    }
}

/// Class of a webhook event.
#[derive(Clone, Copy, Debug, PartialEq, Eq, Structural, Hash)]
pub enum EventClass {
    Payments,
    Refunds,
    Disputes,
    Mandates,
}

/// ISO 3166-1 alpha-2 country code.
#[derive(Clone, Copy, Debug, PartialEq, Eq, Structural, Hash)]
pub enum CountryAlpha2 {
    AF,
    AX,
    AL,
    DZ,
    AS,
    AD,
    AO,
    AI,
    AQ,
    AG,
    AR,
    AM,
    AW,
    AU,
    AT,
    AZ,
    BS,
    BH,
    BD,
    BB,
    BY,
    BE,
    BZ,
    BJ,
    BM,
    BT,
    BO,
    BQ,
    BA,
    BW,
    BV,
    BR,
    IO,
    BN,
    BG,
    BF,
    BI,
    KH,
    CM,
    CA,
    CV,
    KY,
    CF,
    TD,
    CL,
    CN,
    CX,
    CC,
    CO,
    KM,
    CG,
    CD,
    CK,
    CR,
    CI,
    HR,
    CU,
    CW,
    CY,
    CZ,
    DK,
    DJ,
    DM,
    DO,
    EC,
    EG,
    SV,
    GQ,
    ER,
    EE,
    ET,
    FK,
    FO,
    FJ,
    FI,
    FR,
    GF,
    PF,
    TF,
    GA,
    GM,
    GE,
    DE,
    GH,
    GI,
    GR,
    GL,
    GD,
    GP,
    GU,
    GT,
    GG,
    GN,
    GW,
    GY,
    HT,
    HM,
    VA,
    HN,
    HK,
    HU,
    IS,
    IN,
    ID,
    IR,
    IQ,
    IE,
    IM,
    IL,
    IT,
    JM,
    JP,
    JE,
    JO,
    KZ,
    KE,
    KI,
    KP,
    KR,
    KW,
    KG,
    LA,
    LV,
    LB,
    LS,
    LR,
    LY,
    LI,
    LT,
    LU,
    MO,
    MK,
    MG,
    MW,
    MY,
    MV,
    ML,
    MT,
    MH,
    MQ,
    MR,
    MU,
    YT,
    MX,
    FM,
    MD,
    MC,
    MN,
    ME,
    MS,
    MA,
    MZ,
    MM,
    NA,
    NR,
    NP,
    NL,
    NC,
    NZ,
    NI,
    NE,
    NG,
    NU,
    NF,
    MP,
    NO,
    OM,
    PK,
    PW,
    PS,
    PA,
    PG,
    PY,
    PE,
    PH,
    PN,
    PL,
    PT,
    PR,
    QA,
    RE,
    RO,
    RU,
    RW,
    BL,
    SH,
    KN,
    LC,
    MF,
    PM,
    VC,
    WS,
    SM,
    ST,
    SA,
    SN,
    RS,
    SC,
    SL,
    SG,
    SX,
    SK,
    SI,
    SB,
    SO,
    ZA,
    GS,
    SS,
    ES,
    LK,
    SD,
    SR,
    SJ,
    SZ,
    SE,
    CH,
    SY,
    TW,
    TJ,
    TZ,
    TH,
    TL,
    TG,
    TK,
    TO,
    TT,
    TN,
    TR,
    TM,
    TC,
    TV,
    UG,
    UA,
    AE,
    GB,
    UM,
    UY,
    UZ,
    VU,
    VE,
    VN,
    VG,
    VI,
    WF,
    EH,
    YE,
    ZM,
    ZW,
    US,
}

impl Default for CountryAlpha2 {
    fn default() -> (r: Self)
        ensures
            r == CountryAlpha2::US,
    {
        CountryAlpha2::US
    }
}

/// Errors of the outgoing API client.
#[derive(Clone, Debug, PartialEq, Eq, Hash)]
pub enum ApiClientError {
    HeaderMapConstructionFailed,
    InvalidProxyConfiguration,
    ClientConstructionFailed,
    CertificateDecodeFailed,
    BodySerializationFailed,
    UnexpectedState,
    UrlParsingFailed,
    UrlEncodingFailed,
    RequestNotSent(String),
    ResponseDecodingFailed,
    RequestTimeoutReceived,
    ConnectionClosedIncompleteMessage,
    InternalServerErrorReceived,
    BadGatewayReceived,
    ServiceUnavailableReceived,
    GatewayTimeoutReceived,
    UnexpectedServerResponse,
}

/// Background workflows of the process tracker.
#[derive(Clone, Copy, Debug, PartialEq, Eq, Structural, Hash)]
pub enum ProcessTrackerRunner {
    PaymentsSyncWorkflow,
    RefundWorkflowRouter,
    DeleteTokenizeDataWorkflow,
    ApiKeyExpiryWorkflow,
    OutgoingWebhookRetryWorkflow,
    AttachPayoutAccountWorkflow,
    PaymentMethodStatusUpdateWorkflow,
    PassiveRecoveryWorkflow,
}

/// Connectors eligible for payment routing.
#[derive(Clone, Copy, Debug, PartialEq, Eq, Structural, Hash)]
pub enum RoutableConnectors {
    Adyenplatform,
    Aci,
    Adyen,
    Airwallex,
    Archipel,
    Authorizedotnet,
    Bankofamerica,
    Barclaycard,
    Billwerk,
    Bitpay,
    Bambora,
    Bamboraapac,
    Bluesnap,
    Boku,
    Braintree,
    Cashtocode,
    Chargebee,
    Checkout,
    Coinbase,
    Coingate,
    Cryptopay,
    Cybersource,
    Datatrans,
    Deutschebank,
    Digitalvirgo,
    Dlocal,
    Ebanx,
    Elavon,
    Facilitapay,
    Fiserv,
    Fiservemea,
    Fiuu,
    Forte,
    Getnet,
    Globalpay,
    Globepay,
    Gocardless,
    Hipay,
    Helcim,
    Iatapay,
    Inespay,
    Itaubank,
    Jpmorgan,
    Klarna,
    Mifinity,
    Mollie,
    Moneris,
    Multisafepay,
    Nexinets,
    Nexixpay,
    Nmi,
    Nomupay,
    Noon,
    Novalnet,
    Nuvei,
    Opennode,
    Paybox,
    Payme,
    Payone,
    Paypal,
    Paystack,
    Payu,
    Placetopay,
    Powertranz,
    Prophetpay,
    Rapyd,
    Razorpay,
    Recurly,
    Redsys,
    Riskified,
    Shift4,
    Signifyd,
    Square,
    Stax,
    Stripe,
    Stripebilling,
    Trustpay,
    Tokenio,
    Tsys,
    Volt,
    Wellsfargo,
    Wise,
    Worldline,
    Worldpay,
    Worldpayvantiv,
    Worldpayxml,
    Xendit,
    Zen,
    Plaid,
    Zsl,
}

/// 3DS transaction status.
#[derive(Clone, Copy, Debug, PartialEq, Eq, Structural, Hash)]
pub enum TransactionStatus {
    Success,
    Failure,
    VerificationNotPerformed,
    NotVerified,
    Rejected,
    ChallengeRequired,
    ChallengeRequiredDecoupledAuthentication,
    InformationOnly,
}

impl Default for TransactionStatus {
    fn default() -> (r: Self)
        ensures
            r == TransactionStatus::Failure,
    {
        TransactionStatus::Failure
    }
}

/// Authentication method of a Google Pay token.
#[derive(Clone, Copy, Debug, PartialEq, Eq, Structural, Hash)]
pub enum GooglePayAuthMethod {
    PanOnly,
    Cryptogram,
}

/// Kind of product being paid for.
#[derive(Clone, Copy, Debug, PartialEq, Eq, Structural, Hash)]
pub enum ProductType {
    Physical,
    Digital,
    Travel,
    Ride,
    Event,
    Accommodation,
}

impl Default for ProductType {
    fn default() -> (r: Self)
        ensures
            r == ProductType::Physical,
    {
        ProductType::Physical
    }
}

impl Currency {
    /// True for currencies without minor units.
    pub open spec fn spec_is_zero_decimal(self) -> bool {
        self is BIF || self is CLP || self is DJF || self is GNF || self is JPY || self is KMF || self is KRW || self is MGA || self is PYG || self is RWF || self is UGX || self is VND || self is VUV || self is XAF || self is XOF || self is XPF
    }

    /// True for currencies with three decimal places.
    pub open spec fn spec_is_three_decimal(self) -> bool {
        self is BHD || self is JOD || self is KWD || self is OMR || self is TND
    }

    /// True for currencies with four decimal places.
    pub open spec fn spec_is_four_decimal(self) -> bool {
        self is CLF
    }

    /// Number of digits after the decimal point of the currency.
    pub open spec fn spec_exponent(self) -> nat {
        if self.spec_is_zero_decimal() { 0 } else if self.spec_is_three_decimal() { 3 } else if self.spec_is_four_decimal() { 4 } else { 2 }
    }

    /// The numeric ISO 4217 code of the currency.
    pub open spec fn spec_iso_4217(self) -> Seq<char> {
        match self {
            Currency::AED => "784"@,
            Currency::AFN => "971"@,
            Currency::ALL => "008"@,
            Currency::AMD => "051"@,
            Currency::ANG => "532"@,
            Currency::AOA => "973"@,
            Currency::ARS => "032"@,
            Currency::AUD => "036"@,
            Currency::AWG => "533"@,
            Currency::AZN => "944"@,
            Currency::BAM => "977"@,
            Currency::BBD => "052"@,
            Currency::BDT => "050"@,
            Currency::BGN => "975"@,
            Currency::BHD => "048"@,
            Currency::BIF => "108"@,
            Currency::BMD => "060"@,
            Currency::BND => "096"@,
            Currency::BOB => "068"@,
            Currency::BRL => "986"@,
            Currency::BSD => "044"@,
            Currency::BTN => "064"@,
            Currency::BWP => "072"@,
            Currency::BYN => "933"@,
            Currency::BZD => "084"@,
            Currency::CAD => "124"@,
            Currency::CDF => "976"@,
            Currency::CHF => "756"@,
            Currency::CLF => "990"@,
            Currency::CLP => "152"@,
            Currency::CNY => "156"@,
            Currency::COP => "170"@,
            Currency::CRC => "188"@,
            Currency::CUC => "931"@,
            Currency::CUP => "192"@,
            Currency::CVE => "132"@,
            Currency::CZK => "203"@,
            Currency::DJF => "262"@,
            Currency::DKK => "208"@,
            Currency::DOP => "214"@,
            Currency::DZD => "012"@,
            Currency::EGP => "818"@,
            Currency::ERN => "232"@,
            Currency::ETB => "230"@,
            Currency::EUR => "978"@,
            Currency::FJD => "242"@,
            Currency::FKP => "238"@,
            Currency::GBP => "826"@,
            Currency::GEL => "981"@,
            Currency::GHS => "936"@,
            Currency::GIP => "292"@,
            Currency::GMD => "270"@,
            Currency::GNF => "324"@,
            Currency::GTQ => "320"@,
            Currency::GYD => "328"@,
            Currency::HKD => "344"@,
            Currency::HNL => "340"@,
            Currency::HRK => "191"@,
            Currency::HTG => "332"@,
            Currency::HUF => "348"@,
            Currency::IDR => "360"@,
            Currency::ILS => "376"@,
            Currency::INR => "356"@,
            Currency::IQD => "368"@,
            Currency::IRR => "364"@,
            Currency::ISK => "352"@,
            Currency::JMD => "388"@,
            Currency::JOD => "400"@,
            Currency::JPY => "392"@,
            Currency::KES => "404"@,
            Currency::KGS => "417"@,
            Currency::KHR => "116"@,
            Currency::KMF => "174"@,
            Currency::KPW => "408"@,
            Currency::KRW => "410"@,
            Currency::KWD => "414"@,
            Currency::KYD => "136"@,
            Currency::KZT => "398"@,
            Currency::LAK => "418"@,
            Currency::LBP => "422"@,
            Currency::LKR => "144"@,
            Currency::LRD => "430"@,
            Currency::LSL => "426"@,
            Currency::LYD => "434"@,
            Currency::MAD => "504"@,
            Currency::MDL => "498"@,
            Currency::MGA => "969"@,
            Currency::MKD => "807"@,
            Currency::MMK => "104"@,
            Currency::MNT => "496"@,
            Currency::MOP => "446"@,
            Currency::MRU => "929"@,
            Currency::MUR => "480"@,
            Currency::MVR => "462"@,
            Currency::MWK => "454"@,
            Currency::MXN => "484"@,
            Currency::MYR => "458"@,
            Currency::MZN => "943"@,
            Currency::NAD => "516"@,
            Currency::NGN => "566"@,
            Currency::NIO => "558"@,
            Currency::NOK => "578"@,
            Currency::NPR => "524"@,
            Currency::NZD => "554"@,
            Currency::OMR => "512"@,
            Currency::PAB => "590"@,
            Currency::PEN => "604"@,
            Currency::PGK => "598"@,
            Currency::PHP => "608"@,
            Currency::PKR => "586"@,
            Currency::PLN => "985"@,
            Currency::PYG => "600"@,
            Currency::QAR => "634"@,
            Currency::RON => "946"@,
            Currency::RSD => "941"@,
            Currency::RUB => "643"@,
            Currency::RWF => "646"@,
            Currency::SAR => "682"@,
            Currency::SBD => "090"@,
            Currency::SCR => "690"@,
            Currency::SDG => "938"@,
            Currency::SEK => "752"@,
            Currency::SGD => "702"@,
            Currency::SHP => "654"@,
            Currency::SLE => "925"@,
            Currency::SLL => "694"@,
            Currency::SOS => "706"@,
            Currency::SRD => "968"@,
            Currency::SSP => "728"@,
            Currency::STD => "678"@,
            Currency::STN => "930"@,
            Currency::SVC => "222"@,
            Currency::SYP => "760"@,
            Currency::SZL => "748"@,
            Currency::THB => "764"@,
            Currency::TJS => "972"@,
            Currency::TMT => "934"@,
            Currency::TND => "788"@,
            Currency::TOP => "776"@,
            Currency::TRY => "949"@,
            Currency::TTD => "780"@,
            Currency::TWD => "901"@,
            Currency::TZS => "834"@,
            Currency::UAH => "980"@,
            Currency::UGX => "800"@,
            Currency::USD => "840"@,
            Currency::UYU => "858"@,
            Currency::UZS => "860"@,
            Currency::VES => "928"@,
            Currency::VND => "704"@,
            Currency::VUV => "548"@,
            Currency::WST => "882"@,
            Currency::XAF => "950"@,
            Currency::XCD => "951"@,
            Currency::XOF => "952"@,
            Currency::XPF => "953"@,
            Currency::YER => "886"@,
            Currency::ZAR => "710"@,
            Currency::ZMW => "967"@,
            Currency::ZWL => "932"@,
        }
    }

    /// The alphabetic ISO 4217 code of the currency, as the variant is named.
    pub open spec fn spec_code(self) -> Seq<char> {
        match self {
            Currency::AED => "AED"@,
            Currency::AFN => "AFN"@,
            Currency::ALL => "ALL"@,
            Currency::AMD => "AMD"@,
            Currency::ANG => "ANG"@,
            Currency::AOA => "AOA"@,
            Currency::ARS => "ARS"@,
            Currency::AUD => "AUD"@,
            Currency::AWG => "AWG"@,
            Currency::AZN => "AZN"@,
            Currency::BAM => "BAM"@,
            Currency::BBD => "BBD"@,
            Currency::BDT => "BDT"@,
            Currency::BGN => "BGN"@,
            Currency::BHD => "BHD"@,
            Currency::BIF => "BIF"@,
            Currency::BMD => "BMD"@,
            Currency::BND => "BND"@,
            Currency::BOB => "BOB"@,
            Currency::BRL => "BRL"@,
            Currency::BSD => "BSD"@,
            Currency::BTN => "BTN"@,
            Currency::BWP => "BWP"@,
            Currency::BYN => "BYN"@,
            Currency::BZD => "BZD"@,
            Currency::CAD => "CAD"@,
            Currency::CDF => "CDF"@,
            Currency::CHF => "CHF"@,
            Currency::CLF => "CLF"@,
            Currency::CLP => "CLP"@,
            Currency::CNY => "CNY"@,
            Currency::COP => "COP"@,
            Currency::CRC => "CRC"@,
            Currency::CUC => "CUC"@,
            Currency::CUP => "CUP"@,
            Currency::CVE => "CVE"@,
            Currency::CZK => "CZK"@,
            Currency::DJF => "DJF"@,
            Currency::DKK => "DKK"@,
            Currency::DOP => "DOP"@,
            Currency::DZD => "DZD"@,
            Currency::EGP => "EGP"@,
            Currency::ERN => "ERN"@,
            Currency::ETB => "ETB"@,
            Currency::EUR => "EUR"@,
            Currency::FJD => "FJD"@,
            Currency::FKP => "FKP"@,
            Currency::GBP => "GBP"@,
            Currency::GEL => "GEL"@,
            Currency::GHS => "GHS"@,
            Currency::GIP => "GIP"@,
            Currency::GMD => "GMD"@,
            Currency::GNF => "GNF"@,
            Currency::GTQ => "GTQ"@,
            Currency::GYD => "GYD"@,
            Currency::HKD => "HKD"@,
            Currency::HNL => "HNL"@,
            Currency::HRK => "HRK"@,
            Currency::HTG => "HTG"@,
            Currency::HUF => "HUF"@,
            Currency::IDR => "IDR"@,
            Currency::ILS => "ILS"@,
            Currency::INR => "INR"@,
            Currency::IQD => "IQD"@,
            Currency::IRR => "IRR"@,
            Currency::ISK => "ISK"@,
            Currency::JMD => "JMD"@,
            Currency::JOD => "JOD"@,
            Currency::JPY => "JPY"@,
            Currency::KES => "KES"@,
            Currency::KGS => "KGS"@,
            Currency::KHR => "KHR"@,
            Currency::KMF => "KMF"@,
            Currency::KPW => "KPW"@,
            Currency::KRW => "KRW"@,
            Currency::KWD => "KWD"@,
            Currency::KYD => "KYD"@,
            Currency::KZT => "KZT"@,
            Currency::LAK => "LAK"@,
            Currency::LBP => "LBP"@,
            Currency::LKR => "LKR"@,
            Currency::LRD => "LRD"@,
            Currency::LSL => "LSL"@,
            Currency::LYD => "LYD"@,
            Currency::MAD => "MAD"@,
            Currency::MDL => "MDL"@,
            Currency::MGA => "MGA"@,
            Currency::MKD => "MKD"@,
            Currency::MMK => "MMK"@,
            Currency::MNT => "MNT"@,
            Currency::MOP => "MOP"@,
            Currency::MRU => "MRU"@,
            Currency::MUR => "MUR"@,
            Currency::MVR => "MVR"@,
            Currency::MWK => "MWK"@,
            Currency::MXN => "MXN"@,
            Currency::MYR => "MYR"@,
            Currency::MZN => "MZN"@,
            Currency::NAD => "NAD"@,
            Currency::NGN => "NGN"@,
            Currency::NIO => "NIO"@,
            Currency::NOK => "NOK"@,
            Currency::NPR => "NPR"@,
            Currency::NZD => "NZD"@,
            Currency::OMR => "OMR"@,
            Currency::PAB => "PAB"@,
            Currency::PEN => "PEN"@,
            Currency::PGK => "PGK"@,
            Currency::PHP => "PHP"@,
            Currency::PKR => "PKR"@,
            Currency::PLN => "PLN"@,
            Currency::PYG => "PYG"@,
            Currency::QAR => "QAR"@,
            Currency::RON => "RON"@,
            Currency::RSD => "RSD"@,
            Currency::RUB => "RUB"@,
            Currency::RWF => "RWF"@,
            Currency::SAR => "SAR"@,
            Currency::SBD => "SBD"@,
            Currency::SCR => "SCR"@,
            Currency::SDG => "SDG"@,
            Currency::SEK => "SEK"@,
            Currency::SGD => "SGD"@,
            Currency::SHP => "SHP"@,
            Currency::SLE => "SLE"@,
            Currency::SLL => "SLL"@,
            Currency::SOS => "SOS"@,
            Currency::SRD => "SRD"@,
            Currency::SSP => "SSP"@,
            Currency::STD => "STD"@,
            Currency::STN => "STN"@,
            Currency::SVC => "SVC"@,
            Currency::SYP => "SYP"@,
            Currency::SZL => "SZL"@,
            Currency::THB => "THB"@,
            Currency::TJS => "TJS"@,
            Currency::TMT => "TMT"@,
            Currency::TND => "TND"@,
            Currency::TOP => "TOP"@,
            Currency::TRY => "TRY"@,
            Currency::TTD => "TTD"@,
            Currency::TWD => "TWD"@,
            Currency::TZS => "TZS"@,
            Currency::UAH => "UAH"@,
            Currency::UGX => "UGX"@,
            Currency::USD => "USD"@,
            Currency::UYU => "UYU"@,
            Currency::UZS => "UZS"@,
            Currency::VES => "VES"@,
            Currency::VND => "VND"@,
            Currency::VUV => "VUV"@,
            Currency::WST => "WST"@,
            Currency::XAF => "XAF"@,
            Currency::XCD => "XCD"@,
            Currency::XOF => "XOF"@,
            Currency::XPF => "XPF"@,
            Currency::YER => "YER"@,
            Currency::ZAR => "ZAR"@,
            Currency::ZMW => "ZMW"@,
            Currency::ZWL => "ZWL"@,
        }
    }

    /// The text of an amount of a currency without minor units, which is
    /// written as it is; none for a currency with minor units, whose amount
    /// is written in major units.
    pub fn zero_decimal_amount_text(self, amount: i64) -> (r: Option<String>)
        ensures
            self.spec_is_zero_decimal() ==> (r matches Some(t) && t@ == int_decimal(amount as int)),
            !self.spec_is_zero_decimal() ==> r is None,
    {
        if self.is_zero_decimal_currency() {
            Some(i64_to_decimal(amount))
        } else {
            None
        }
    }

    pub fn is_zero_decimal_currency(self) -> (r: bool)
        ensures
            r == self.spec_is_zero_decimal(),
    {
        match self {
            Currency::BIF | Currency::CLP | Currency::DJF | Currency::GNF | Currency::JPY | Currency::KMF | Currency::KRW | Currency::MGA | Currency::PYG | Currency::RWF | Currency::UGX | Currency::VND | Currency::VUV | Currency::XAF | Currency::XOF | Currency::XPF => true,
            _ => false,
        }
    }

    pub fn is_three_decimal_currency(self) -> (r: bool)
        ensures
            r == self.spec_is_three_decimal(),
    {
        match self {
            Currency::BHD | Currency::JOD | Currency::KWD | Currency::OMR | Currency::TND => true,
            _ => false,
        }
    }

    pub fn is_four_decimal_currency(self) -> (r: bool)
        ensures
            r == self.spec_is_four_decimal(),
    {
        match self {
            Currency::CLF => true,
            _ => false,
        }
    }

    pub fn number_of_digits_after_decimal_point(self) -> (r: u8)
        ensures
            r == self.spec_exponent(),
            r == 0 || r == 2 || r == 3 || r == 4,
    {
        if self.is_zero_decimal_currency() {
            0
        } else if self.is_three_decimal_currency() {
            3
        } else if self.is_four_decimal_currency() {
            4
        } else {
            2
        }
    }

    pub fn iso_4217(self) -> (r: &'static str)
        ensures
            r@ == self.spec_iso_4217(),
    {
        match self {
            Currency::AED => "784",
            Currency::AFN => "971",
            Currency::ALL => "008",
            Currency::AMD => "051",
            Currency::ANG => "532",
            Currency::AOA => "973",
            Currency::ARS => "032",
            Currency::AUD => "036",
            Currency::AWG => "533",
            Currency::AZN => "944",
            Currency::BAM => "977",
            Currency::BBD => "052",
            Currency::BDT => "050",
            Currency::BGN => "975",
            Currency::BHD => "048",
            Currency::BIF => "108",
            Currency::BMD => "060",
            Currency::BND => "096",
            Currency::BOB => "068",
            Currency::BRL => "986",
            Currency::BSD => "044",
            Currency::BTN => "064",
            Currency::BWP => "072",
            Currency::BYN => "933",
            Currency::BZD => "084",
            Currency::CAD => "124",
            Currency::CDF => "976",
            Currency::CHF => "756",
            Currency::CLF => "990",
            Currency::CLP => "152",
            Currency::CNY => "156",
            Currency::COP => "170",
            Currency::CRC => "188",
            Currency::CUC => "931",
            Currency::CUP => "192",
            Currency::CVE => "132",
            Currency::CZK => "203",
            Currency::DJF => "262",
            Currency::DKK => "208",
            Currency::DOP => "214",
            Currency::DZD => "012",
            Currency::EGP => "818",
            Currency::ERN => "232",
            Currency::ETB => "230",
            Currency::EUR => "978",
            Currency::FJD => "242",
            Currency::FKP => "238",
            Currency::GBP => "826",
            Currency::GEL => "981",
            Currency::GHS => "936",
            Currency::GIP => "292",
            Currency::GMD => "270",
            Currency::GNF => "324",
            Currency::GTQ => "320",
            Currency::GYD => "328",
            Currency::HKD => "344",
            Currency::HNL => "340",
            Currency::HRK => "191",
            Currency::HTG => "332",
            Currency::HUF => "348",
            Currency::IDR => "360",
            Currency::ILS => "376",
            Currency::INR => "356",
            Currency::IQD => "368",
            Currency::IRR => "364",
            Currency::ISK => "352",
            Currency::JMD => "388",
            Currency::JOD => "400",
            Currency::JPY => "392",
            Currency::KES => "404",
            Currency::KGS => "417",
            Currency::KHR => "116",
            Currency::KMF => "174",
            Currency::KPW => "408",
            Currency::KRW => "410",
            Currency::KWD => "414",
            Currency::KYD => "136",
            Currency::KZT => "398",
            Currency::LAK => "418",
            Currency::LBP => "422",
            Currency::LKR => "144",
            Currency::LRD => "430",
            Currency::LSL => "426",
            Currency::LYD => "434",
            Currency::MAD => "504",
            Currency::MDL => "498",
            Currency::MGA => "969",
            Currency::MKD => "807",
            Currency::MMK => "104",
            Currency::MNT => "496",
            Currency::MOP => "446",
            Currency::MRU => "929",
            Currency::MUR => "480",
            Currency::MVR => "462",
            Currency::MWK => "454",
            Currency::MXN => "484",
            Currency::MYR => "458",
            Currency::MZN => "943",
            Currency::NAD => "516",
            Currency::NGN => "566",
            Currency::NIO => "558",
            Currency::NOK => "578",
            Currency::NPR => "524",
            Currency::NZD => "554",
            Currency::OMR => "512",
            Currency::PAB => "590",
            Currency::PEN => "604",
            Currency::PGK => "598",
            Currency::PHP => "608",
            Currency::PKR => "586",
            Currency::PLN => "985",
            Currency::PYG => "600",
            Currency::QAR => "634",
            Currency::RON => "946",
            Currency::RSD => "941",
            Currency::RUB => "643",
            Currency::RWF => "646",
            Currency::SAR => "682",
            Currency::SBD => "090",
            Currency::SCR => "690",
            Currency::SDG => "938",
            Currency::SEK => "752",
            Currency::SGD => "702",
            Currency::SHP => "654",
            Currency::SLE => "925",
            Currency::SLL => "694",
            Currency::SOS => "706",
            Currency::SRD => "968",
            Currency::SSP => "728",
            Currency::STD => "678",
            Currency::STN => "930",
            Currency::SVC => "222",
            Currency::SYP => "760",
            Currency::SZL => "748",
            Currency::THB => "764",
            Currency::TJS => "972",
            Currency::TMT => "934",
            Currency::TND => "788",
            Currency::TOP => "776",
            Currency::TRY => "949",
            Currency::TTD => "780",
            Currency::TWD => "901",
            Currency::TZS => "834",
            Currency::UAH => "980",
            Currency::UGX => "800",
            Currency::USD => "840",
            Currency::UYU => "858",
            Currency::UZS => "860",
            Currency::VES => "928",
            Currency::VND => "704",
            Currency::VUV => "548",
            Currency::WST => "882",
            Currency::XAF => "950",
            Currency::XCD => "951",
            Currency::XOF => "952",
            Currency::XPF => "953",
            Currency::YER => "886",
            Currency::ZAR => "710",
            Currency::ZMW => "967",
            Currency::ZWL => "932",
        }
    }

    /// The alphabetic code of the currency, such as `USD`.
    pub fn as_str(self) -> (r: &'static str)
        ensures
            r@ == self.spec_code(),
    {
        match self {
            Currency::AED => "AED",
            Currency::AFN => "AFN",
            Currency::ALL => "ALL",
            Currency::AMD => "AMD",
            Currency::ANG => "ANG",
            Currency::AOA => "AOA",
            Currency::ARS => "ARS",
            Currency::AUD => "AUD",
            Currency::AWG => "AWG",
            Currency::AZN => "AZN",
            Currency::BAM => "BAM",
            Currency::BBD => "BBD",
            Currency::BDT => "BDT",
            Currency::BGN => "BGN",
            Currency::BHD => "BHD",
            Currency::BIF => "BIF",
            Currency::BMD => "BMD",
            Currency::BND => "BND",
            Currency::BOB => "BOB",
            Currency::BRL => "BRL",
            Currency::BSD => "BSD",
            Currency::BTN => "BTN",
            Currency::BWP => "BWP",
            Currency::BYN => "BYN",
            Currency::BZD => "BZD",
            Currency::CAD => "CAD",
            Currency::CDF => "CDF",
            Currency::CHF => "CHF",
            Currency::CLF => "CLF",
            Currency::CLP => "CLP",
            Currency::CNY => "CNY",
            Currency::COP => "COP",
            Currency::CRC => "CRC",
            Currency::CUC => "CUC",
            Currency::CUP => "CUP",
            Currency::CVE => "CVE",
            Currency::CZK => "CZK",
            Currency::DJF => "DJF",
            Currency::DKK => "DKK",
            Currency::DOP => "DOP",
            Currency::DZD => "DZD",
            Currency::EGP => "EGP",
            Currency::ERN => "ERN",
            Currency::ETB => "ETB",
            Currency::EUR => "EUR",
            Currency::FJD => "FJD",
            Currency::FKP => "FKP",
            Currency::GBP => "GBP",
            Currency::GEL => "GEL",
            Currency::GHS => "GHS",
            Currency::GIP => "GIP",
            Currency::GMD => "GMD",
            Currency::GNF => "GNF",
            Currency::GTQ => "GTQ",
            Currency::GYD => "GYD",
            Currency::HKD => "HKD",
            Currency::HNL => "HNL",
            Currency::HRK => "HRK",
            Currency::HTG => "HTG",
            Currency::HUF => "HUF",
            Currency::IDR => "IDR",
            Currency::ILS => "ILS",
            Currency::INR => "INR",
            Currency::IQD => "IQD",
            Currency::IRR => "IRR",
            Currency::ISK => "ISK",
            Currency::JMD => "JMD",
            Currency::JOD => "JOD",
            Currency::JPY => "JPY",
            Currency::KES => "KES",
            Currency::KGS => "KGS",
            Currency::KHR => "KHR",
            Currency::KMF => "KMF",
            Currency::KPW => "KPW",
            Currency::KRW => "KRW",
            Currency::KWD => "KWD",
            Currency::KYD => "KYD",
            Currency::KZT => "KZT",
            Currency::LAK => "LAK",
            Currency::LBP => "LBP",
            Currency::LKR => "LKR",
            Currency::LRD => "LRD",
            Currency::LSL => "LSL",
            Currency::LYD => "LYD",
            Currency::MAD => "MAD",
            Currency::MDL => "MDL",
            Currency::MGA => "MGA",
            Currency::MKD => "MKD",
            Currency::MMK => "MMK",
            Currency::MNT => "MNT",
            Currency::MOP => "MOP",
            Currency::MRU => "MRU",
            Currency::MUR => "MUR",
            Currency::MVR => "MVR",
            Currency::MWK => "MWK",
            Currency::MXN => "MXN",
            Currency::MYR => "MYR",
            Currency::MZN => "MZN",
            Currency::NAD => "NAD",
            Currency::NGN => "NGN",
            Currency::NIO => "NIO",
            Currency::NOK => "NOK",
            Currency::NPR => "NPR",
            Currency::NZD => "NZD",
            Currency::OMR => "OMR",
            Currency::PAB => "PAB",
            Currency::PEN => "PEN",
            Currency::PGK => "PGK",
            Currency::PHP => "PHP",
            Currency::PKR => "PKR",
            Currency::PLN => "PLN",
            Currency::PYG => "PYG",
            Currency::QAR => "QAR",
            Currency::RON => "RON",
            Currency::RSD => "RSD",
            Currency::RUB => "RUB",
            Currency::RWF => "RWF",
            Currency::SAR => "SAR",
            Currency::SBD => "SBD",
            Currency::SCR => "SCR",
            Currency::SDG => "SDG",
            Currency::SEK => "SEK",
            Currency::SGD => "SGD",
            Currency::SHP => "SHP",
            Currency::SLE => "SLE",
            Currency::SLL => "SLL",
            Currency::SOS => "SOS",
            Currency::SRD => "SRD",
            Currency::SSP => "SSP",
            Currency::STD => "STD",
            Currency::STN => "STN",
            Currency::SVC => "SVC",
            Currency::SYP => "SYP",
            Currency::SZL => "SZL",
            Currency::THB => "THB",
            Currency::TJS => "TJS",
            Currency::TMT => "TMT",
            Currency::TND => "TND",
            Currency::TOP => "TOP",
            Currency::TRY => "TRY",
            Currency::TTD => "TTD",
            Currency::TWD => "TWD",
            Currency::TZS => "TZS",
            Currency::UAH => "UAH",
            Currency::UGX => "UGX",
            Currency::USD => "USD",
            Currency::UYU => "UYU",
            Currency::UZS => "UZS",
            Currency::VES => "VES",
            Currency::VND => "VND",
            Currency::VUV => "VUV",
            Currency::WST => "WST",
            Currency::XAF => "XAF",
            Currency::XCD => "XCD",
            Currency::XOF => "XOF",
            Currency::XPF => "XPF",
            Currency::YER => "YER",
            Currency::ZAR => "ZAR",
            Currency::ZMW => "ZMW",
            Currency::ZWL => "ZWL",
        }
    }
}


/// The value of a decimal digit character.
pub open spec fn decimal_digit_value(c: char) -> int {
    c as int - '0' as int
}

/// Whether a text is three ASCII digits.
pub open spec fn is_three_digit_code(s: Seq<char>) -> bool {
    s.len() == 3 && forall|i: int| 0 <= i < 3 ==> '0' <= #[trigger] s[i] <= '9'
}

/// The currency whose ISO 4217 numeric code has a given number.
pub open spec fn currency_of_iso_number(n: u16) -> Option<Currency> {
    match n {
        784 => Some(Currency::AED),
        971 => Some(Currency::AFN),
        8 => Some(Currency::ALL),
        51 => Some(Currency::AMD),
        532 => Some(Currency::ANG),
        973 => Some(Currency::AOA),
        32 => Some(Currency::ARS),
        36 => Some(Currency::AUD),
        533 => Some(Currency::AWG),
        944 => Some(Currency::AZN),
        977 => Some(Currency::BAM),
        52 => Some(Currency::BBD),
        50 => Some(Currency::BDT),
        975 => Some(Currency::BGN),
        48 => Some(Currency::BHD),
        108 => Some(Currency::BIF),
        60 => Some(Currency::BMD),
        96 => Some(Currency::BND),
        68 => Some(Currency::BOB),
        986 => Some(Currency::BRL),
        44 => Some(Currency::BSD),
        64 => Some(Currency::BTN),
        72 => Some(Currency::BWP),
        933 => Some(Currency::BYN),
        84 => Some(Currency::BZD),
        124 => Some(Currency::CAD),
        976 => Some(Currency::CDF),
        756 => Some(Currency::CHF),
        990 => Some(Currency::CLF),
        152 => Some(Currency::CLP),
        156 => Some(Currency::CNY),
        170 => Some(Currency::COP),
        188 => Some(Currency::CRC),
        931 => Some(Currency::CUC),
        192 => Some(Currency::CUP),
        132 => Some(Currency::CVE),
        203 => Some(Currency::CZK),
        262 => Some(Currency::DJF),
        208 => Some(Currency::DKK),
        214 => Some(Currency::DOP),
        12 => Some(Currency::DZD),
        818 => Some(Currency::EGP),
        232 => Some(Currency::ERN),
        230 => Some(Currency::ETB),
        978 => Some(Currency::EUR),
        242 => Some(Currency::FJD),
        238 => Some(Currency::FKP),
        826 => Some(Currency::GBP),
        981 => Some(Currency::GEL),
        936 => Some(Currency::GHS),
        292 => Some(Currency::GIP),
        270 => Some(Currency::GMD),
        324 => Some(Currency::GNF),
        320 => Some(Currency::GTQ),
        328 => Some(Currency::GYD),
        344 => Some(Currency::HKD),
        340 => Some(Currency::HNL),
        191 => Some(Currency::HRK),
        332 => Some(Currency::HTG),
        348 => Some(Currency::HUF),
        360 => Some(Currency::IDR),
        376 => Some(Currency::ILS),
        356 => Some(Currency::INR),
        368 => Some(Currency::IQD),
        364 => Some(Currency::IRR),
        352 => Some(Currency::ISK),
        388 => Some(Currency::JMD),
        400 => Some(Currency::JOD),
        392 => Some(Currency::JPY),
        404 => Some(Currency::KES),
        417 => Some(Currency::KGS),
        116 => Some(Currency::KHR),
        174 => Some(Currency::KMF),
        408 => Some(Currency::KPW),
        410 => Some(Currency::KRW),
        414 => Some(Currency::KWD),
        136 => Some(Currency::KYD),
        398 => Some(Currency::KZT),
        418 => Some(Currency::LAK),
        422 => Some(Currency::LBP),
        144 => Some(Currency::LKR),
        430 => Some(Currency::LRD),
        426 => Some(Currency::LSL),
        434 => Some(Currency::LYD),
        504 => Some(Currency::MAD),
        498 => Some(Currency::MDL),
        969 => Some(Currency::MGA),
        807 => Some(Currency::MKD),
        104 => Some(Currency::MMK),
        496 => Some(Currency::MNT),
        446 => Some(Currency::MOP),
        929 => Some(Currency::MRU),
        480 => Some(Currency::MUR),
        462 => Some(Currency::MVR),
        454 => Some(Currency::MWK),
        484 => Some(Currency::MXN),
        458 => Some(Currency::MYR),
        943 => Some(Currency::MZN),
        516 => Some(Currency::NAD),
        566 => Some(Currency::NGN),
        558 => Some(Currency::NIO),
        578 => Some(Currency::NOK),
        524 => Some(Currency::NPR),
        554 => Some(Currency::NZD),
        512 => Some(Currency::OMR),
        590 => Some(Currency::PAB),
        604 => Some(Currency::PEN),
        598 => Some(Currency::PGK),
        608 => Some(Currency::PHP),
        586 => Some(Currency::PKR),
        985 => Some(Currency::PLN),
        600 => Some(Currency::PYG),
        634 => Some(Currency::QAR),
        946 => Some(Currency::RON),
        941 => Some(Currency::RSD),
        643 => Some(Currency::RUB),
        646 => Some(Currency::RWF),
        682 => Some(Currency::SAR),
        90 => Some(Currency::SBD),
        690 => Some(Currency::SCR),
        938 => Some(Currency::SDG),
        752 => Some(Currency::SEK),
        702 => Some(Currency::SGD),
        654 => Some(Currency::SHP),
        925 => Some(Currency::SLE),
        694 => Some(Currency::SLL),
        706 => Some(Currency::SOS),
        968 => Some(Currency::SRD),
        728 => Some(Currency::SSP),
        678 => Some(Currency::STD),
        930 => Some(Currency::STN),
        222 => Some(Currency::SVC),
        760 => Some(Currency::SYP),
        748 => Some(Currency::SZL),
        764 => Some(Currency::THB),
        972 => Some(Currency::TJS),
        934 => Some(Currency::TMT),
        788 => Some(Currency::TND),
        776 => Some(Currency::TOP),
        949 => Some(Currency::TRY),
        780 => Some(Currency::TTD),
        901 => Some(Currency::TWD),
        834 => Some(Currency::TZS),
        980 => Some(Currency::UAH),
        800 => Some(Currency::UGX),
        840 => Some(Currency::USD),
        858 => Some(Currency::UYU),
        860 => Some(Currency::UZS),
        928 => Some(Currency::VES),
        704 => Some(Currency::VND),
        548 => Some(Currency::VUV),
        882 => Some(Currency::WST),
        950 => Some(Currency::XAF),
        951 => Some(Currency::XCD),
        952 => Some(Currency::XOF),
        953 => Some(Currency::XPF),
        886 => Some(Currency::YER),
        710 => Some(Currency::ZAR),
        967 => Some(Currency::ZMW),
        932 => Some(Currency::ZWL),
        _ => None,
    }
}

/// The currency whose ISO 4217 numeric code is a three-digit text.
pub open spec fn currency_of_iso_4217(code: Seq<char>) -> Option<Currency> {
    if is_three_digit_code(code) {
        currency_of_iso_number(
            (100 * decimal_digit_value(code[0]) + 10 * decimal_digit_value(code[1]) + decimal_digit_value(code[2])) as u16,
        )
    } else {
        None
    }
}

/// A currency's code is three digits and gives the currency back.
#[verifier::rlimit(50)]
#[verifier::spinoff_prover]
proof fn lemma_iso_4217_code(c: Currency)
    ensures
        is_three_digit_code(c.spec_iso_4217()),
        currency_of_iso_4217(c.spec_iso_4217()) == Some(c),
{
    match c {
        Currency::AED => {
            reveal_strlit("784");
        },
        Currency::AFN => {
            reveal_strlit("971");
        },
        Currency::ALL => {
            reveal_strlit("008");
        },
        Currency::AMD => {
            reveal_strlit("051");
        },
        Currency::ANG => {
            reveal_strlit("532");
        },
        Currency::AOA => {
            reveal_strlit("973");
        },
        Currency::ARS => {
            reveal_strlit("032");
        },
        Currency::AUD => {
            reveal_strlit("036");
        },
        Currency::AWG => {
            reveal_strlit("533");
        },
        Currency::AZN => {
            reveal_strlit("944");
        },
        Currency::BAM => {
            reveal_strlit("977");
        },
        Currency::BBD => {
            reveal_strlit("052");
        },
        Currency::BDT => {
            reveal_strlit("050");
        },
        Currency::BGN => {
            reveal_strlit("975");
        },
        Currency::BHD => {
            reveal_strlit("048");
        },
        Currency::BIF => {
            reveal_strlit("108");
        },
        Currency::BMD => {
            reveal_strlit("060");
        },
        Currency::BND => {
            reveal_strlit("096");
        },
        Currency::BOB => {
            reveal_strlit("068");
        },
        Currency::BRL => {
            reveal_strlit("986");
        },
        Currency::BSD => {
            reveal_strlit("044");
        },
        Currency::BTN => {
            reveal_strlit("064");
        },
        Currency::BWP => {
            reveal_strlit("072");
        },
        Currency::BYN => {
            reveal_strlit("933");
        },
        Currency::BZD => {
            reveal_strlit("084");
        },
        Currency::CAD => {
            reveal_strlit("124");
        },
        Currency::CDF => {
            reveal_strlit("976");
        },
        Currency::CHF => {
            reveal_strlit("756");
        },
        Currency::CLF => {
            reveal_strlit("990");
        },
        Currency::CLP => {
            reveal_strlit("152");
        },
        Currency::CNY => {
            reveal_strlit("156");
        },
        Currency::COP => {
            reveal_strlit("170");
        },
        Currency::CRC => {
            reveal_strlit("188");
        },
        Currency::CUC => {
            reveal_strlit("931");
        },
        Currency::CUP => {
            reveal_strlit("192");
        },
        Currency::CVE => {
            reveal_strlit("132");
        },
        Currency::CZK => {
            reveal_strlit("203");
        },
        Currency::DJF => {
            reveal_strlit("262");
        },
        Currency::DKK => {
            reveal_strlit("208");
        },
        Currency::DOP => {
            reveal_strlit("214");
        },
        Currency::DZD => {
            reveal_strlit("012");
        },
        Currency::EGP => {
            reveal_strlit("818");
        },
        Currency::ERN => {
            reveal_strlit("232");
        },
        Currency::ETB => {
            reveal_strlit("230");
        },
        Currency::EUR => {
            reveal_strlit("978");
        },
        Currency::FJD => {
            reveal_strlit("242");
        },
        Currency::FKP => {
            reveal_strlit("238");
        },
        Currency::GBP => {
            reveal_strlit("826");
        },
        Currency::GEL => {
            reveal_strlit("981");
        },
        Currency::GHS => {
            reveal_strlit("936");
        },
        Currency::GIP => {
            reveal_strlit("292");
        },
        Currency::GMD => {
            reveal_strlit("270");
        },
        Currency::GNF => {
            reveal_strlit("324");
        },
        Currency::GTQ => {
            reveal_strlit("320");
        },
        Currency::GYD => {
            reveal_strlit("328");
        },
        Currency::HKD => {
            reveal_strlit("344");
        },
        Currency::HNL => {
            reveal_strlit("340");
        },
        Currency::HRK => {
            reveal_strlit("191");
        },
        Currency::HTG => {
            reveal_strlit("332");
        },
        Currency::HUF => {
            reveal_strlit("348");
        },
        Currency::IDR => {
            reveal_strlit("360");
        },
        Currency::ILS => {
            reveal_strlit("376");
        },
        Currency::INR => {
            reveal_strlit("356");
        },
        Currency::IQD => {
            reveal_strlit("368");
        },
        Currency::IRR => {
            reveal_strlit("364");
        },
        Currency::ISK => {
            reveal_strlit("352");
        },
        Currency::JMD => {
            reveal_strlit("388");
        },
        Currency::JOD => {
            reveal_strlit("400");
        },
        Currency::JPY => {
            reveal_strlit("392");
        },
        Currency::KES => {
            reveal_strlit("404");
        },
        Currency::KGS => {
            reveal_strlit("417");
        },
        Currency::KHR => {
            reveal_strlit("116");
        },
        Currency::KMF => {
            reveal_strlit("174");
        },
        Currency::KPW => {
            reveal_strlit("408");
        },
        Currency::KRW => {
            reveal_strlit("410");
        },
        Currency::KWD => {
            reveal_strlit("414");
        },
        Currency::KYD => {
            reveal_strlit("136");
        },
        Currency::KZT => {
            reveal_strlit("398");
        },
        Currency::LAK => {
            reveal_strlit("418");
        },
        Currency::LBP => {
            reveal_strlit("422");
        },
        Currency::LKR => {
            reveal_strlit("144");
        },
        Currency::LRD => {
            reveal_strlit("430");
        },
        Currency::LSL => {
            reveal_strlit("426");
        },
        Currency::LYD => {
            reveal_strlit("434");
        },
        Currency::MAD => {
            reveal_strlit("504");
        },
        Currency::MDL => {
            reveal_strlit("498");
        },
        Currency::MGA => {
            reveal_strlit("969");
        },
        Currency::MKD => {
            reveal_strlit("807");
        },
        Currency::MMK => {
            reveal_strlit("104");
        },
        Currency::MNT => {
            reveal_strlit("496");
        },
        Currency::MOP => {
            reveal_strlit("446");
        },
        Currency::MRU => {
            reveal_strlit("929");
        },
        Currency::MUR => {
            reveal_strlit("480");
        },
        Currency::MVR => {
            reveal_strlit("462");
        },
        Currency::MWK => {
            reveal_strlit("454");
        },
        Currency::MXN => {
            reveal_strlit("484");
        },
        Currency::MYR => {
            reveal_strlit("458");
        },
        Currency::MZN => {
            reveal_strlit("943");
        },
        Currency::NAD => {
            reveal_strlit("516");
        },
        Currency::NGN => {
            reveal_strlit("566");
        },
        Currency::NIO => {
            reveal_strlit("558");
        },
        Currency::NOK => {
            reveal_strlit("578");
        },
        Currency::NPR => {
            reveal_strlit("524");
        },
        Currency::NZD => {
            reveal_strlit("554");
        },
        Currency::OMR => {
            reveal_strlit("512");
        },
        Currency::PAB => {
            reveal_strlit("590");
        },
        Currency::PEN => {
            reveal_strlit("604");
        },
        Currency::PGK => {
            reveal_strlit("598");
        },
        Currency::PHP => {
            reveal_strlit("608");
        },
        Currency::PKR => {
            reveal_strlit("586");
        },
        Currency::PLN => {
            reveal_strlit("985");
        },
        Currency::PYG => {
            reveal_strlit("600");
        },
        Currency::QAR => {
            reveal_strlit("634");
        },
        Currency::RON => {
            reveal_strlit("946");
        },
        Currency::RSD => {
            reveal_strlit("941");
        },
        Currency::RUB => {
            reveal_strlit("643");
        },
        Currency::RWF => {
            reveal_strlit("646");
        },
        Currency::SAR => {
            reveal_strlit("682");
        },
        Currency::SBD => {
            reveal_strlit("090");
        },
        Currency::SCR => {
            reveal_strlit("690");
        },
        Currency::SDG => {
            reveal_strlit("938");
        },
        Currency::SEK => {
            reveal_strlit("752");
        },
        Currency::SGD => {
            reveal_strlit("702");
        },
        Currency::SHP => {
            reveal_strlit("654");
        },
        Currency::SLE => {
            reveal_strlit("925");
        },
        Currency::SLL => {
            reveal_strlit("694");
        },
        Currency::SOS => {
            reveal_strlit("706");
        },
        Currency::SRD => {
            reveal_strlit("968");
        },
        Currency::SSP => {
            reveal_strlit("728");
        },
        Currency::STD => {
            reveal_strlit("678");
        },
        Currency::STN => {
            reveal_strlit("930");
        },
        Currency::SVC => {
            reveal_strlit("222");
        },
        Currency::SYP => {
            reveal_strlit("760");
        },
        Currency::SZL => {
            reveal_strlit("748");
        },
        Currency::THB => {
            reveal_strlit("764");
        },
        Currency::TJS => {
            reveal_strlit("972");
        },
        Currency::TMT => {
            reveal_strlit("934");
        },
        Currency::TND => {
            reveal_strlit("788");
        },
        Currency::TOP => {
            reveal_strlit("776");
        },
        Currency::TRY => {
            reveal_strlit("949");
        },
        Currency::TTD => {
            reveal_strlit("780");
        },
        Currency::TWD => {
            reveal_strlit("901");
        },
        Currency::TZS => {
            reveal_strlit("834");
        },
        Currency::UAH => {
            reveal_strlit("980");
        },
        Currency::UGX => {
            reveal_strlit("800");
        },
        Currency::USD => {
            reveal_strlit("840");
        },
        Currency::UYU => {
            reveal_strlit("858");
        },
        Currency::UZS => {
            reveal_strlit("860");
        },
        Currency::VES => {
            reveal_strlit("928");
        },
        Currency::VND => {
            reveal_strlit("704");
        },
        Currency::VUV => {
            reveal_strlit("548");
        },
        Currency::WST => {
            reveal_strlit("882");
        },
        Currency::XAF => {
            reveal_strlit("950");
        },
        Currency::XCD => {
            reveal_strlit("951");
        },
        Currency::XOF => {
            reveal_strlit("952");
        },
        Currency::XPF => {
            reveal_strlit("953");
        },
        Currency::YER => {
            reveal_strlit("886");
        },
        Currency::ZAR => {
            reveal_strlit("710");
        },
        Currency::ZMW => {
            reveal_strlit("967");
        },
        Currency::ZWL => {
            reveal_strlit("932");
        },
    }
}

/// Every currency's ISO 4217 code is three ASCII digits, and two different
/// currencies have different codes.
pub proof fn lemma_iso_4217_codes(c1: Currency, c2: Currency)
    ensures
        is_three_digit_code(c1.spec_iso_4217()),
        c1 != c2 ==> c1.spec_iso_4217() != c2.spec_iso_4217(),
{
    lemma_iso_4217_code(c1);
    lemma_iso_4217_code(c2);
}

impl PaymentMethodType {
    /// The name shown to customers: a brand name for the best known wallets,
    /// the variant name otherwise.
    pub open spec fn spec_display_name(self) -> Seq<char> {
        match self {
            PaymentMethodType::Ach => "Ach"@,
            PaymentMethodType::Affirm => "Affirm"@,
            PaymentMethodType::AfterpayClearpay => "AfterpayClearpay"@,
            PaymentMethodType::Alfamart => "Alfamart"@,
            PaymentMethodType::AliPay => "AliPay"@,
            PaymentMethodType::AliPayHk => "AliPayHk"@,
            PaymentMethodType::Alma => "Alma"@,
            PaymentMethodType::AmazonPay => "AmazonPay"@,
            PaymentMethodType::ApplePay => "Apple Pay"@,
            PaymentMethodType::Atome => "Atome"@,
            PaymentMethodType::Bacs => "Bacs"@,
            PaymentMethodType::BancontactCard => "BancontactCard"@,
            PaymentMethodType::Becs => "Becs"@,
            PaymentMethodType::Benefit => "Benefit"@,
            PaymentMethodType::Bizum => "Bizum"@,
            PaymentMethodType::Blik => "Blik"@,
            PaymentMethodType::Boleto => "Boleto"@,
            PaymentMethodType::BcaBankTransfer => "BcaBankTransfer"@,
            PaymentMethodType::BniVa => "BniVa"@,
            PaymentMethodType::BriVa => "BriVa"@,
            PaymentMethodType::CardRedirect => "CardRedirect"@,
            PaymentMethodType::CimbVa => "CimbVa"@,
            PaymentMethodType::ClassicReward => "ClassicReward"@,
            PaymentMethodType::Credit => "Credit"@,
            PaymentMethodType::CryptoCurrency => "CryptoCurrency"@,
            PaymentMethodType::Cashapp => "Cashapp"@,
            PaymentMethodType::Dana => "Dana"@,
            PaymentMethodType::DanamonVa => "DanamonVa"@,
            PaymentMethodType::Debit => "Debit"@,
            PaymentMethodType::DuitNow => "DuitNow"@,
            PaymentMethodType::Efecty => "Efecty"@,
            PaymentMethodType::Eft => "Eft"@,
            PaymentMethodType::Eps => "Eps"@,
            PaymentMethodType::Fps => "Fps"@,
            PaymentMethodType::Evoucher => "Evoucher"@,
            PaymentMethodType::Giropay => "Giropay"@,
            PaymentMethodType::Givex => "Givex"@,
            PaymentMethodType::GooglePay => "Google Pay"@,
            PaymentMethodType::GoPay => "GoPay"@,
            PaymentMethodType::Gcash => "GCash"@,
            PaymentMethodType::Ideal => "Ideal"@,
            PaymentMethodType::Interac => "Interac"@,
            PaymentMethodType::Indomaret => "Indomaret"@,
            PaymentMethodType::Klarna => "Klarna"@,
            PaymentMethodType::KakaoPay => "Kakao Pay"@,
            PaymentMethodType::LocalBankRedirect => "LocalBankRedirect"@,
            PaymentMethodType::MandiriVa => "MandiriVa"@,
            PaymentMethodType::Knet => "Knet"@,
            PaymentMethodType::MbWay => "MbWay"@,
            PaymentMethodType::MobilePay => "MobilePay"@,
            PaymentMethodType::Momo => "Momo"@,
            PaymentMethodType::MomoAtm => "MomoAtm"@,
            PaymentMethodType::Multibanco => "Multibanco"@,
            PaymentMethodType::OnlineBankingThailand => "OnlineBankingThailand"@,
            PaymentMethodType::OnlineBankingCzechRepublic => "OnlineBankingCzechRepublic"@,
            PaymentMethodType::OnlineBankingFinland => "OnlineBankingFinland"@,
            PaymentMethodType::OnlineBankingFpx => "OnlineBankingFpx"@,
            PaymentMethodType::OnlineBankingPoland => "OnlineBankingPoland"@,
            PaymentMethodType::OnlineBankingSlovakia => "OnlineBankingSlovakia"@,
            PaymentMethodType::Oxxo => "Oxxo"@,
            PaymentMethodType::PagoEfectivo => "PagoEfectivo"@,
            PaymentMethodType::PermataBankTransfer => "PermataBankTransfer"@,
            PaymentMethodType::OpenBankingUk => "OpenBankingUk"@,
            PaymentMethodType::PayBright => "PayBright"@,
            PaymentMethodType::Paypal => "Paypal"@,
            PaymentMethodType::Paze => "Paze"@,
            PaymentMethodType::Pix => "Pix"@,
            PaymentMethodType::PaySafeCard => "PaySafeCard"@,
            PaymentMethodType::Przelewy24 => "Przelewy24"@,
            PaymentMethodType::PromptPay => "PromptPay"@,
            PaymentMethodType::Pse => "Pse"@,
            PaymentMethodType::RedCompra => "RedCompra"@,
            PaymentMethodType::RedPagos => "RedPagos"@,
            PaymentMethodType::SamsungPay => "Samsung Pay"@,
            PaymentMethodType::Sepa => "Sepa"@,
            PaymentMethodType::SepaBankTransfer => "SepaBankTransfer"@,
            PaymentMethodType::Sofort => "Sofort"@,
            PaymentMethodType::Swish => "Swish"@,
            PaymentMethodType::TouchNGo => "TouchNGo"@,
            PaymentMethodType::Trustly => "Trustly"@,
            PaymentMethodType::Twint => "Twint"@,
            PaymentMethodType::UpiCollect => "UpiCollect"@,
            PaymentMethodType::UpiIntent => "UpiIntent"@,
            PaymentMethodType::Vipps => "Vipps"@,
            PaymentMethodType::VietQr => "VietQr"@,
            PaymentMethodType::Venmo => "Venmo"@,
            PaymentMethodType::Walley => "Walley"@,
            PaymentMethodType::WeChatPay => "WeChat Pay"@,
            PaymentMethodType::SevenEleven => "SevenEleven"@,
            PaymentMethodType::Lawson => "Lawson"@,
            PaymentMethodType::MiniStop => "MiniStop"@,
            PaymentMethodType::FamilyMart => "FamilyMart"@,
            PaymentMethodType::Seicomart => "Seicomart"@,
            PaymentMethodType::PayEasy => "PayEasy"@,
            PaymentMethodType::LocalBankTransfer => "LocalBankTransfer"@,
            PaymentMethodType::Mifinity => "Mifinity"@,
            PaymentMethodType::OpenBankingPIS => "OpenBankingPIS"@,
            PaymentMethodType::DirectCarrierBilling => "DirectCarrierBilling"@,
            PaymentMethodType::InstantBankTransfer => "InstantBankTransfer"@,
            PaymentMethodType::InstantBankTransferFinland => "InstantBankTransferFinland"@,
            PaymentMethodType::InstantBankTransferPoland => "InstantBankTransferPoland"@,
            PaymentMethodType::RevolutPay => "RevolutPay"@,
        }
    }

    pub fn should_check_for_customer_saved_payment_method_type(self) -> (r: bool)
        ensures
            r == (self is Credit || self is Debit),
    {
        match self {
            PaymentMethodType::Credit | PaymentMethodType::Debit => true,
            _ => false,
        }
    }

    pub fn to_display_name(&self) -> (r: String)
        ensures
            r@ == self.spec_display_name(),
    {
        let s: &str = match self {
            PaymentMethodType::Ach => "Ach",
            PaymentMethodType::Affirm => "Affirm",
            PaymentMethodType::AfterpayClearpay => "AfterpayClearpay",
            PaymentMethodType::Alfamart => "Alfamart",
            PaymentMethodType::AliPay => "AliPay",
            PaymentMethodType::AliPayHk => "AliPayHk",
            PaymentMethodType::Alma => "Alma",
            PaymentMethodType::AmazonPay => "AmazonPay",
            PaymentMethodType::ApplePay => "Apple Pay",
            PaymentMethodType::Atome => "Atome",
            PaymentMethodType::Bacs => "Bacs",
            PaymentMethodType::BancontactCard => "BancontactCard",
            PaymentMethodType::Becs => "Becs",
            PaymentMethodType::Benefit => "Benefit",
            PaymentMethodType::Bizum => "Bizum",
            PaymentMethodType::Blik => "Blik",
            PaymentMethodType::Boleto => "Boleto",
            PaymentMethodType::BcaBankTransfer => "BcaBankTransfer",
            PaymentMethodType::BniVa => "BniVa",
            PaymentMethodType::BriVa => "BriVa",
            PaymentMethodType::CardRedirect => "CardRedirect",
            PaymentMethodType::CimbVa => "CimbVa",
            PaymentMethodType::ClassicReward => "ClassicReward",
            PaymentMethodType::Credit => "Credit",
            PaymentMethodType::CryptoCurrency => "CryptoCurrency",
            PaymentMethodType::Cashapp => "Cashapp",
            PaymentMethodType::Dana => "Dana",
            PaymentMethodType::DanamonVa => "DanamonVa",
            PaymentMethodType::Debit => "Debit",
            PaymentMethodType::DuitNow => "DuitNow",
            PaymentMethodType::Efecty => "Efecty",
            PaymentMethodType::Eft => "Eft",
            PaymentMethodType::Eps => "Eps",
            PaymentMethodType::Fps => "Fps",
            PaymentMethodType::Evoucher => "Evoucher",
            PaymentMethodType::Giropay => "Giropay",
            PaymentMethodType::Givex => "Givex",
            PaymentMethodType::GooglePay => "Google Pay",
            PaymentMethodType::GoPay => "GoPay",
            PaymentMethodType::Gcash => "GCash",
            PaymentMethodType::Ideal => "Ideal",
            PaymentMethodType::Interac => "Interac",
            PaymentMethodType::Indomaret => "Indomaret",
            PaymentMethodType::Klarna => "Klarna",
            PaymentMethodType::KakaoPay => "Kakao Pay",
            PaymentMethodType::LocalBankRedirect => "LocalBankRedirect",
            PaymentMethodType::MandiriVa => "MandiriVa",
            PaymentMethodType::Knet => "Knet",
            PaymentMethodType::MbWay => "MbWay",
            PaymentMethodType::MobilePay => "MobilePay",
            PaymentMethodType::Momo => "Momo",
            PaymentMethodType::MomoAtm => "MomoAtm",
            PaymentMethodType::Multibanco => "Multibanco",
            PaymentMethodType::OnlineBankingThailand => "OnlineBankingThailand",
            PaymentMethodType::OnlineBankingCzechRepublic => "OnlineBankingCzechRepublic",
            PaymentMethodType::OnlineBankingFinland => "OnlineBankingFinland",
            PaymentMethodType::OnlineBankingFpx => "OnlineBankingFpx",
            PaymentMethodType::OnlineBankingPoland => "OnlineBankingPoland",
            PaymentMethodType::OnlineBankingSlovakia => "OnlineBankingSlovakia",
            PaymentMethodType::Oxxo => "Oxxo",
            PaymentMethodType::PagoEfectivo => "PagoEfectivo",
            PaymentMethodType::PermataBankTransfer => "PermataBankTransfer",
            PaymentMethodType::OpenBankingUk => "OpenBankingUk",
            PaymentMethodType::PayBright => "PayBright",
            PaymentMethodType::Paypal => "Paypal",
            PaymentMethodType::Paze => "Paze",
            PaymentMethodType::Pix => "Pix",
            PaymentMethodType::PaySafeCard => "PaySafeCard",
            PaymentMethodType::Przelewy24 => "Przelewy24",
            PaymentMethodType::PromptPay => "PromptPay",
            PaymentMethodType::Pse => "Pse",
            PaymentMethodType::RedCompra => "RedCompra",
            PaymentMethodType::RedPagos => "RedPagos",
            PaymentMethodType::SamsungPay => "Samsung Pay",
            PaymentMethodType::Sepa => "Sepa",
            PaymentMethodType::SepaBankTransfer => "SepaBankTransfer",
            PaymentMethodType::Sofort => "Sofort",
            PaymentMethodType::Swish => "Swish",
            PaymentMethodType::TouchNGo => "TouchNGo",
            PaymentMethodType::Trustly => "Trustly",
            PaymentMethodType::Twint => "Twint",
            PaymentMethodType::UpiCollect => "UpiCollect",
            PaymentMethodType::UpiIntent => "UpiIntent",
            PaymentMethodType::Vipps => "Vipps",
            PaymentMethodType::VietQr => "VietQr",
            PaymentMethodType::Venmo => "Venmo",
            PaymentMethodType::Walley => "Walley",
            PaymentMethodType::WeChatPay => "WeChat Pay",
            PaymentMethodType::SevenEleven => "SevenEleven",
            PaymentMethodType::Lawson => "Lawson",
            PaymentMethodType::MiniStop => "MiniStop",
            PaymentMethodType::FamilyMart => "FamilyMart",
            PaymentMethodType::Seicomart => "Seicomart",
            PaymentMethodType::PayEasy => "PayEasy",
            PaymentMethodType::LocalBankTransfer => "LocalBankTransfer",
            PaymentMethodType::Mifinity => "Mifinity",
            PaymentMethodType::OpenBankingPIS => "OpenBankingPIS",
            PaymentMethodType::DirectCarrierBilling => "DirectCarrierBilling",
            PaymentMethodType::InstantBankTransfer => "InstantBankTransfer",
            PaymentMethodType::InstantBankTransferFinland => "InstantBankTransferFinland",
            PaymentMethodType::InstantBankTransferPoland => "InstantBankTransferPoland",
            PaymentMethodType::RevolutPay => "RevolutPay",
        };
        String::from_str(s)
    }
}

impl AttemptStatus {
    /// Statuses after which the attempt does not change any more.
    pub open spec fn spec_is_terminal(self) -> bool {
        self is Charged || self is AutoRefunded || self is Voided || self is PartialCharged || self is AuthenticationFailed || self is AuthorizationFailed || self is VoidFailed || self is CaptureFailed || self is Failure || self is IntegrityFailure
    }

    pub fn is_terminal_status(self) -> (r: bool)
        ensures
            r == self.spec_is_terminal(),
    {
        match self {
            AttemptStatus::Charged | AttemptStatus::AutoRefunded | AttemptStatus::Voided | AttemptStatus::PartialCharged | AttemptStatus::AuthenticationFailed | AttemptStatus::AuthorizationFailed | AttemptStatus::VoidFailed | AttemptStatus::CaptureFailed | AttemptStatus::Failure | AttemptStatus::IntegrityFailure => true,
            _ => false,
        }
    }
}

impl CardNetwork {
    pub open spec fn spec_is_global(self) -> bool {
        self is Visa || self is Mastercard || self is AmericanExpress || self is JCB || self is DinersClub || self is Discover || self is CartesBancaires || self is UnionPay
    }

    pub open spec fn spec_is_us_local(self) -> bool {
        self is Star || self is Pulse || self is Accel || self is Nyce
    }

    pub fn is_global_network(&self) -> (r: bool)
        ensures
            r == self.spec_is_global(),
    {
        match self {
            CardNetwork::Visa | CardNetwork::Mastercard | CardNetwork::AmericanExpress | CardNetwork::JCB | CardNetwork::DinersClub | CardNetwork::Discover | CardNetwork::CartesBancaires | CardNetwork::UnionPay => true,
            _ => false,
        }
    }

    pub fn is_us_local_network(&self) -> (r: bool)
        ensures
            r == self.spec_is_us_local(),
    {
        match self {
            CardNetwork::Star | CardNetwork::Pulse | CardNetwork::Accel | CardNetwork::Nyce => true,
            _ => false,
        }
    }
}

impl ApiClientError {
    pub fn is_upstream_timeout(&self) -> (r: bool)
        ensures
            r == (self is RequestTimeoutReceived),
    {
        match self {
            ApiClientError::RequestTimeoutReceived => true,
            _ => false,
        }
    }

    pub fn is_connection_closed_before_message_could_complete(&self) -> (r: bool)
        ensures
            r == (self is ConnectionClosedIncompleteMessage),
    {
        match self {
            ApiClientError::ConnectionClosedIncompleteMessage => true,
            _ => false,
        }
    }
}


impl CountryAlpha2 {
    /// The two-letter code of the country, as it is displayed.
    pub open spec fn spec_code(self) -> Seq<char> {
        match self {
            CountryAlpha2::AF => "AF"@,
            CountryAlpha2::AX => "AX"@,
            CountryAlpha2::AL => "AL"@,
            CountryAlpha2::DZ => "DZ"@,
            CountryAlpha2::AS => "AS"@,
            CountryAlpha2::AD => "AD"@,
            CountryAlpha2::AO => "AO"@,
            CountryAlpha2::AI => "AI"@,
            CountryAlpha2::AQ => "AQ"@,
            CountryAlpha2::AG => "AG"@,
            CountryAlpha2::AR => "AR"@,
            CountryAlpha2::AM => "AM"@,
            CountryAlpha2::AW => "AW"@,
            CountryAlpha2::AU => "AU"@,
            CountryAlpha2::AT => "AT"@,
            CountryAlpha2::AZ => "AZ"@,
            CountryAlpha2::BS => "BS"@,
            CountryAlpha2::BH => "BH"@,
            CountryAlpha2::BD => "BD"@,
            CountryAlpha2::BB => "BB"@,
            CountryAlpha2::BY => "BY"@,
            CountryAlpha2::BE => "BE"@,
            CountryAlpha2::BZ => "BZ"@,
            CountryAlpha2::BJ => "BJ"@,
            CountryAlpha2::BM => "BM"@,
            CountryAlpha2::BT => "BT"@,
            CountryAlpha2::BO => "BO"@,
            CountryAlpha2::BQ => "BQ"@,
            CountryAlpha2::BA => "BA"@,
            CountryAlpha2::BW => "BW"@,
            CountryAlpha2::BV => "BV"@,
            CountryAlpha2::BR => "BR"@,
            CountryAlpha2::IO => "IO"@,
            CountryAlpha2::BN => "BN"@,
            CountryAlpha2::BG => "BG"@,
            CountryAlpha2::BF => "BF"@,
            CountryAlpha2::BI => "BI"@,
            CountryAlpha2::KH => "KH"@,
            CountryAlpha2::CM => "CM"@,
            CountryAlpha2::CA => "CA"@,
            CountryAlpha2::CV => "CV"@,
            CountryAlpha2::KY => "KY"@,
            CountryAlpha2::CF => "CF"@,
            CountryAlpha2::TD => "TD"@,
            CountryAlpha2::CL => "CL"@,
            CountryAlpha2::CN => "CN"@,
            CountryAlpha2::CX => "CX"@,
            CountryAlpha2::CC => "CC"@,
            CountryAlpha2::CO => "CO"@,
            CountryAlpha2::KM => "KM"@,
            CountryAlpha2::CG => "CG"@,
            CountryAlpha2::CD => "CD"@,
            CountryAlpha2::CK => "CK"@,
            CountryAlpha2::CR => "CR"@,
            CountryAlpha2::CI => "CI"@,
            CountryAlpha2::HR => "HR"@,
            CountryAlpha2::CU => "CU"@,
            CountryAlpha2::CW => "CW"@,
            CountryAlpha2::CY => "CY"@,
            CountryAlpha2::CZ => "CZ"@,
            CountryAlpha2::DK => "DK"@,
            CountryAlpha2::DJ => "DJ"@,
            CountryAlpha2::DM => "DM"@,
            CountryAlpha2::DO => "DO"@,
            CountryAlpha2::EC => "EC"@,
            CountryAlpha2::EG => "EG"@,
            CountryAlpha2::SV => "SV"@,
            CountryAlpha2::GQ => "GQ"@,
            CountryAlpha2::ER => "ER"@,
            CountryAlpha2::EE => "EE"@,
            CountryAlpha2::ET => "ET"@,
            CountryAlpha2::FK => "FK"@,
            CountryAlpha2::FO => "FO"@,
            CountryAlpha2::FJ => "FJ"@,
            CountryAlpha2::FI => "FI"@,
            CountryAlpha2::FR => "FR"@,
            CountryAlpha2::GF => "GF"@,
            CountryAlpha2::PF => "PF"@,
            CountryAlpha2::TF => "TF"@,
            CountryAlpha2::GA => "GA"@,
            CountryAlpha2::GM => "GM"@,
            CountryAlpha2::GE => "GE"@,
            CountryAlpha2::DE => "DE"@,
            CountryAlpha2::GH => "GH"@,
            CountryAlpha2::GI => "GI"@,
            CountryAlpha2::GR => "GR"@,
            CountryAlpha2::GL => "GL"@,
            CountryAlpha2::GD => "GD"@,
            CountryAlpha2::GP => "GP"@,
            CountryAlpha2::GU => "GU"@,
            CountryAlpha2::GT => "GT"@,
            CountryAlpha2::GG => "GG"@,
            CountryAlpha2::GN => "GN"@,
            CountryAlpha2::GW => "GW"@,
            CountryAlpha2::GY => "GY"@,
            CountryAlpha2::HT => "HT"@,
            CountryAlpha2::HM => "HM"@,
            CountryAlpha2::VA => "VA"@,
            CountryAlpha2::HN => "HN"@,
            CountryAlpha2::HK => "HK"@,
            CountryAlpha2::HU => "HU"@,
            CountryAlpha2::IS => "IS"@,
            CountryAlpha2::IN => "IN"@,
            CountryAlpha2::ID => "ID"@,
            CountryAlpha2::IR => "IR"@,
            CountryAlpha2::IQ => "IQ"@,
            CountryAlpha2::IE => "IE"@,
            CountryAlpha2::IM => "IM"@,
            CountryAlpha2::IL => "IL"@,
            CountryAlpha2::IT => "IT"@,
            CountryAlpha2::JM => "JM"@,
            CountryAlpha2::JP => "JP"@,
            CountryAlpha2::JE => "JE"@,
            CountryAlpha2::JO => "JO"@,
            CountryAlpha2::KZ => "KZ"@,
            CountryAlpha2::KE => "KE"@,
            CountryAlpha2::KI => "KI"@,
            CountryAlpha2::KP => "KP"@,
            CountryAlpha2::KR => "KR"@,
            CountryAlpha2::KW => "KW"@,
            CountryAlpha2::KG => "KG"@,
            CountryAlpha2::LA => "LA"@,
            CountryAlpha2::LV => "LV"@,
            CountryAlpha2::LB => "LB"@,
            CountryAlpha2::LS => "LS"@,
            CountryAlpha2::LR => "LR"@,
            CountryAlpha2::LY => "LY"@,
            CountryAlpha2::LI => "LI"@,
            CountryAlpha2::LT => "LT"@,
            CountryAlpha2::LU => "LU"@,
            CountryAlpha2::MO => "MO"@,
            CountryAlpha2::MK => "MK"@,
            CountryAlpha2::MG => "MG"@,
            CountryAlpha2::MW => "MW"@,
            CountryAlpha2::MY => "MY"@,
            CountryAlpha2::MV => "MV"@,
            CountryAlpha2::ML => "ML"@,
            CountryAlpha2::MT => "MT"@,
            CountryAlpha2::MH => "MH"@,
            CountryAlpha2::MQ => "MQ"@,
            CountryAlpha2::MR => "MR"@,
            CountryAlpha2::MU => "MU"@,
            CountryAlpha2::YT => "YT"@,
            CountryAlpha2::MX => "MX"@,
            CountryAlpha2::FM => "FM"@,
            CountryAlpha2::MD => "MD"@,
            CountryAlpha2::MC => "MC"@,
            CountryAlpha2::MN => "MN"@,
            CountryAlpha2::ME => "ME"@,
            CountryAlpha2::MS => "MS"@,
            CountryAlpha2::MA => "MA"@,
            CountryAlpha2::MZ => "MZ"@,
            CountryAlpha2::MM => "MM"@,
            CountryAlpha2::NA => "NA"@,
            CountryAlpha2::NR => "NR"@,
            CountryAlpha2::NP => "NP"@,
            CountryAlpha2::NL => "NL"@,
            CountryAlpha2::NC => "NC"@,
            CountryAlpha2::NZ => "NZ"@,
            CountryAlpha2::NI => "NI"@,
            CountryAlpha2::NE => "NE"@,
            CountryAlpha2::NG => "NG"@,
            CountryAlpha2::NU => "NU"@,
            CountryAlpha2::NF => "NF"@,
            CountryAlpha2::MP => "MP"@,
            CountryAlpha2::NO => "NO"@,
            CountryAlpha2::OM => "OM"@,
            CountryAlpha2::PK => "PK"@,
            CountryAlpha2::PW => "PW"@,
            CountryAlpha2::PS => "PS"@,
            CountryAlpha2::PA => "PA"@,
            CountryAlpha2::PG => "PG"@,
            CountryAlpha2::PY => "PY"@,
            CountryAlpha2::PE => "PE"@,
            CountryAlpha2::PH => "PH"@,
            CountryAlpha2::PN => "PN"@,
            CountryAlpha2::PL => "PL"@,
            CountryAlpha2::PT => "PT"@,
            CountryAlpha2::PR => "PR"@,
            CountryAlpha2::QA => "QA"@,
            CountryAlpha2::RE => "RE"@,
            CountryAlpha2::RO => "RO"@,
            CountryAlpha2::RU => "RU"@,
            CountryAlpha2::RW => "RW"@,
            CountryAlpha2::BL => "BL"@,
            CountryAlpha2::SH => "SH"@,
            CountryAlpha2::KN => "KN"@,
            CountryAlpha2::LC => "LC"@,
            CountryAlpha2::MF => "MF"@,
            CountryAlpha2::PM => "PM"@,
            CountryAlpha2::VC => "VC"@,
            CountryAlpha2::WS => "WS"@,
            CountryAlpha2::SM => "SM"@,
            CountryAlpha2::ST => "ST"@,
            CountryAlpha2::SA => "SA"@,
            CountryAlpha2::SN => "SN"@,
            CountryAlpha2::RS => "RS"@,
            CountryAlpha2::SC => "SC"@,
            CountryAlpha2::SL => "SL"@,
            CountryAlpha2::SG => "SG"@,
            CountryAlpha2::SX => "SX"@,
            CountryAlpha2::SK => "SK"@,
            CountryAlpha2::SI => "SI"@,
            CountryAlpha2::SB => "SB"@,
            CountryAlpha2::SO => "SO"@,
            CountryAlpha2::ZA => "ZA"@,
            CountryAlpha2::GS => "GS"@,
            CountryAlpha2::SS => "SS"@,
            CountryAlpha2::ES => "ES"@,
            CountryAlpha2::LK => "LK"@,
            CountryAlpha2::SD => "SD"@,
            CountryAlpha2::SR => "SR"@,
            CountryAlpha2::SJ => "SJ"@,
            CountryAlpha2::SZ => "SZ"@,
            CountryAlpha2::SE => "SE"@,
            CountryAlpha2::CH => "CH"@,
            CountryAlpha2::SY => "SY"@,
            CountryAlpha2::TW => "TW"@,
            CountryAlpha2::TJ => "TJ"@,
            CountryAlpha2::TZ => "TZ"@,
            CountryAlpha2::TH => "TH"@,
            CountryAlpha2::TL => "TL"@,
            CountryAlpha2::TG => "TG"@,
            CountryAlpha2::TK => "TK"@,
            CountryAlpha2::TO => "TO"@,
            CountryAlpha2::TT => "TT"@,
            CountryAlpha2::TN => "TN"@,
            CountryAlpha2::TR => "TR"@,
            CountryAlpha2::TM => "TM"@,
            CountryAlpha2::TC => "TC"@,
            CountryAlpha2::TV => "TV"@,
            CountryAlpha2::UG => "UG"@,
            CountryAlpha2::UA => "UA"@,
            CountryAlpha2::AE => "AE"@,
            CountryAlpha2::GB => "GB"@,
            CountryAlpha2::UM => "UM"@,
            CountryAlpha2::UY => "UY"@,
            CountryAlpha2::UZ => "UZ"@,
            CountryAlpha2::VU => "VU"@,
            CountryAlpha2::VE => "VE"@,
            CountryAlpha2::VN => "VN"@,
            CountryAlpha2::VG => "VG"@,
            CountryAlpha2::VI => "VI"@,
            CountryAlpha2::WF => "WF"@,
            CountryAlpha2::EH => "EH"@,
            CountryAlpha2::YE => "YE"@,
            CountryAlpha2::ZM => "ZM"@,
            CountryAlpha2::ZW => "ZW"@,
            CountryAlpha2::US => "US"@,
        }
    }

    /// The two-letter code of the country, such as `US`.
    pub fn as_str(self) -> (r: &'static str)
        ensures
            r@ == self.spec_code(),
    {
        match self {
            CountryAlpha2::AF => "AF",
            CountryAlpha2::AX => "AX",
            CountryAlpha2::AL => "AL",
            CountryAlpha2::DZ => "DZ",
            CountryAlpha2::AS => "AS",
            CountryAlpha2::AD => "AD",
            CountryAlpha2::AO => "AO",
            CountryAlpha2::AI => "AI",
            CountryAlpha2::AQ => "AQ",
            CountryAlpha2::AG => "AG",
            CountryAlpha2::AR => "AR",
            CountryAlpha2::AM => "AM",
            CountryAlpha2::AW => "AW",
            CountryAlpha2::AU => "AU",
            CountryAlpha2::AT => "AT",
            CountryAlpha2::AZ => "AZ",
            CountryAlpha2::BS => "BS",
            CountryAlpha2::BH => "BH",
            CountryAlpha2::BD => "BD",
            CountryAlpha2::BB => "BB",
            CountryAlpha2::BY => "BY",
            CountryAlpha2::BE => "BE",
            CountryAlpha2::BZ => "BZ",
            CountryAlpha2::BJ => "BJ",
            CountryAlpha2::BM => "BM",
            CountryAlpha2::BT => "BT",
            CountryAlpha2::BO => "BO",
            CountryAlpha2::BQ => "BQ",
            CountryAlpha2::BA => "BA",
            CountryAlpha2::BW => "BW",
            CountryAlpha2::BV => "BV",
            CountryAlpha2::BR => "BR",
            CountryAlpha2::IO => "IO",
            CountryAlpha2::BN => "BN",
            CountryAlpha2::BG => "BG",
            CountryAlpha2::BF => "BF",
            CountryAlpha2::BI => "BI",
            CountryAlpha2::KH => "KH",
            CountryAlpha2::CM => "CM",
            CountryAlpha2::CA => "CA",
            CountryAlpha2::CV => "CV",
            CountryAlpha2::KY => "KY",
            CountryAlpha2::CF => "CF",
            CountryAlpha2::TD => "TD",
            CountryAlpha2::CL => "CL",
            CountryAlpha2::CN => "CN",
            CountryAlpha2::CX => "CX",
            CountryAlpha2::CC => "CC",
            CountryAlpha2::CO => "CO",
            CountryAlpha2::KM => "KM",
            CountryAlpha2::CG => "CG",
            CountryAlpha2::CD => "CD",
            CountryAlpha2::CK => "CK",
            CountryAlpha2::CR => "CR",
            CountryAlpha2::CI => "CI",
            CountryAlpha2::HR => "HR",
            CountryAlpha2::CU => "CU",
            CountryAlpha2::CW => "CW",
            CountryAlpha2::CY => "CY",
            CountryAlpha2::CZ => "CZ",
            CountryAlpha2::DK => "DK",
            CountryAlpha2::DJ => "DJ",
            CountryAlpha2::DM => "DM",
            CountryAlpha2::DO => "DO",
            CountryAlpha2::EC => "EC",
            CountryAlpha2::EG => "EG",
            CountryAlpha2::SV => "SV",
            CountryAlpha2::GQ => "GQ",
            CountryAlpha2::ER => "ER",
            CountryAlpha2::EE => "EE",
            CountryAlpha2::ET => "ET",
            CountryAlpha2::FK => "FK",
            CountryAlpha2::FO => "FO",
            CountryAlpha2::FJ => "FJ",
            CountryAlpha2::FI => "FI",
            CountryAlpha2::FR => "FR",
            CountryAlpha2::GF => "GF",
            CountryAlpha2::PF => "PF",
            CountryAlpha2::TF => "TF",
            CountryAlpha2::GA => "GA",
            CountryAlpha2::GM => "GM",
            CountryAlpha2::GE => "GE",
            CountryAlpha2::DE => "DE",
            CountryAlpha2::GH => "GH",
            CountryAlpha2::GI => "GI",
            CountryAlpha2::GR => "GR",
            CountryAlpha2::GL => "GL",
            CountryAlpha2::GD => "GD",
            CountryAlpha2::GP => "GP",
            CountryAlpha2::GU => "GU",
            CountryAlpha2::GT => "GT",
            CountryAlpha2::GG => "GG",
            CountryAlpha2::GN => "GN",
            CountryAlpha2::GW => "GW",
            CountryAlpha2::GY => "GY",
            CountryAlpha2::HT => "HT",
            CountryAlpha2::HM => "HM",
            CountryAlpha2::VA => "VA",
            CountryAlpha2::HN => "HN",
            CountryAlpha2::HK => "HK",
            CountryAlpha2::HU => "HU",
            CountryAlpha2::IS => "IS",
            CountryAlpha2::IN => "IN",
            CountryAlpha2::ID => "ID",
            CountryAlpha2::IR => "IR",
            CountryAlpha2::IQ => "IQ",
            CountryAlpha2::IE => "IE",
            CountryAlpha2::IM => "IM",
            CountryAlpha2::IL => "IL",
            CountryAlpha2::IT => "IT",
            CountryAlpha2::JM => "JM",
            CountryAlpha2::JP => "JP",
            CountryAlpha2::JE => "JE",
            CountryAlpha2::JO => "JO",
            CountryAlpha2::KZ => "KZ",
            CountryAlpha2::KE => "KE",
            CountryAlpha2::KI => "KI",
            CountryAlpha2::KP => "KP",
            CountryAlpha2::KR => "KR",
            CountryAlpha2::KW => "KW",
            CountryAlpha2::KG => "KG",
            CountryAlpha2::LA => "LA",
            CountryAlpha2::LV => "LV",
            CountryAlpha2::LB => "LB",
            CountryAlpha2::LS => "LS",
            CountryAlpha2::LR => "LR",
            CountryAlpha2::LY => "LY",
            CountryAlpha2::LI => "LI",
            CountryAlpha2::LT => "LT",
            CountryAlpha2::LU => "LU",
            CountryAlpha2::MO => "MO",
            CountryAlpha2::MK => "MK",
            CountryAlpha2::MG => "MG",
            CountryAlpha2::MW => "MW",
            CountryAlpha2::MY => "MY",
            CountryAlpha2::MV => "MV",
            CountryAlpha2::ML => "ML",
            CountryAlpha2::MT => "MT",
            CountryAlpha2::MH => "MH",
            CountryAlpha2::MQ => "MQ",
            CountryAlpha2::MR => "MR",
            CountryAlpha2::MU => "MU",
            CountryAlpha2::YT => "YT",
            CountryAlpha2::MX => "MX",
            CountryAlpha2::FM => "FM",
            CountryAlpha2::MD => "MD",
            CountryAlpha2::MC => "MC",
            CountryAlpha2::MN => "MN",
            CountryAlpha2::ME => "ME",
            CountryAlpha2::MS => "MS",
            CountryAlpha2::MA => "MA",
            CountryAlpha2::MZ => "MZ",
            CountryAlpha2::MM => "MM",
            CountryAlpha2::NA => "NA",
            CountryAlpha2::NR => "NR",
            CountryAlpha2::NP => "NP",
            CountryAlpha2::NL => "NL",
            CountryAlpha2::NC => "NC",
            CountryAlpha2::NZ => "NZ",
            CountryAlpha2::NI => "NI",
            CountryAlpha2::NE => "NE",
            CountryAlpha2::NG => "NG",
            CountryAlpha2::NU => "NU",
            CountryAlpha2::NF => "NF",
            CountryAlpha2::MP => "MP",
            CountryAlpha2::NO => "NO",
            CountryAlpha2::OM => "OM",
            CountryAlpha2::PK => "PK",
            CountryAlpha2::PW => "PW",
            CountryAlpha2::PS => "PS",
            CountryAlpha2::PA => "PA",
            CountryAlpha2::PG => "PG",
            CountryAlpha2::PY => "PY",
            CountryAlpha2::PE => "PE",
            CountryAlpha2::PH => "PH",
            CountryAlpha2::PN => "PN",
            CountryAlpha2::PL => "PL",
            CountryAlpha2::PT => "PT",
            CountryAlpha2::PR => "PR",
            CountryAlpha2::QA => "QA",
            CountryAlpha2::RE => "RE",
            CountryAlpha2::RO => "RO",
            CountryAlpha2::RU => "RU",
            CountryAlpha2::RW => "RW",
            CountryAlpha2::BL => "BL",
            CountryAlpha2::SH => "SH",
            CountryAlpha2::KN => "KN",
            CountryAlpha2::LC => "LC",
            CountryAlpha2::MF => "MF",
            CountryAlpha2::PM => "PM",
            CountryAlpha2::VC => "VC",
            CountryAlpha2::WS => "WS",
            CountryAlpha2::SM => "SM",
            CountryAlpha2::ST => "ST",
            CountryAlpha2::SA => "SA",
            CountryAlpha2::SN => "SN",
            CountryAlpha2::RS => "RS",
            CountryAlpha2::SC => "SC",
            CountryAlpha2::SL => "SL",
            CountryAlpha2::SG => "SG",
            CountryAlpha2::SX => "SX",
            CountryAlpha2::SK => "SK",
            CountryAlpha2::SI => "SI",
            CountryAlpha2::SB => "SB",
            CountryAlpha2::SO => "SO",
            CountryAlpha2::ZA => "ZA",
            CountryAlpha2::GS => "GS",
            CountryAlpha2::SS => "SS",
            CountryAlpha2::ES => "ES",
            CountryAlpha2::LK => "LK",
            CountryAlpha2::SD => "SD",
            CountryAlpha2::SR => "SR",
            CountryAlpha2::SJ => "SJ",
            CountryAlpha2::SZ => "SZ",
            CountryAlpha2::SE => "SE",
            CountryAlpha2::CH => "CH",
            CountryAlpha2::SY => "SY",
            CountryAlpha2::TW => "TW",
            CountryAlpha2::TJ => "TJ",
            CountryAlpha2::TZ => "TZ",
            CountryAlpha2::TH => "TH",
            CountryAlpha2::TL => "TL",
            CountryAlpha2::TG => "TG",
            CountryAlpha2::TK => "TK",
            CountryAlpha2::TO => "TO",
            CountryAlpha2::TT => "TT",
            CountryAlpha2::TN => "TN",
            CountryAlpha2::TR => "TR",
            CountryAlpha2::TM => "TM",
            CountryAlpha2::TC => "TC",
            CountryAlpha2::TV => "TV",
            CountryAlpha2::UG => "UG",
            CountryAlpha2::UA => "UA",
            CountryAlpha2::AE => "AE",
            CountryAlpha2::GB => "GB",
            CountryAlpha2::UM => "UM",
            CountryAlpha2::UY => "UY",
            CountryAlpha2::UZ => "UZ",
            CountryAlpha2::VU => "VU",
            CountryAlpha2::VE => "VE",
            CountryAlpha2::VN => "VN",
            CountryAlpha2::VG => "VG",
            CountryAlpha2::VI => "VI",
            CountryAlpha2::WF => "WF",
            CountryAlpha2::EH => "EH",
            CountryAlpha2::YE => "YE",
            CountryAlpha2::ZM => "ZM",
            CountryAlpha2::ZW => "ZW",
            CountryAlpha2::US => "US",
        }
    }
}

} // verus!

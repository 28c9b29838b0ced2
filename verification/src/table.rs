//! The sine lookup table: 256 fixed-point samples over one quarter turn.

use vstd::prelude::*;

verus! {

/// Sine samples at each multiple of 1/1024 of a rotation, spanning one
/// quarter turn. Entry `i` is the canonical fixed-point word (a fraction of
/// `[0, 1)` scaled by `2^64`) closest to `sin(i / 1024 rotations)`. The
/// first entry is exactly zero and the sequence rises monotonically, since
/// sine increases over a quarter turn.
pub const CURVE: [u64; 256] = [
    0x0000000000000000, 0x01921F0FE6700712, 0x03243A3F9BD8F08D, 0x04B64DAEF8C3BF4E,
    0x0648557DE8D99F7E, 0x07DA4DCC7473C040, 0x096C32BACA2AE68B, 0x0AFE00694866A1B4,
    0x0C8FB2F886EC09F3, 0x0E214689606BF167, 0x0FB2B73CFC106FF7, 0x11440134D709B280,
    0x12D52092CE19F5CD, 0x14661179272095AD, 0x15F6D00A9AA418C1, 0x1787586A5D5B2158,
    0x1917A6BC29B42BE2, 0x1AA7B724495C0379, 0x1C3785C79EC2D4F6, 0x1DC70ECBAE9FC913,
    0x1F564E56A9730E34, 0x20E5408F75063A46, 0x2273E19DB5EAED57, 0x24022DA9D8F79D6E,
    0x259020DD1CC27445, 0x271DB7619B1A2773, 0x28AAED62527CB3B6, 0x2A37BF0B2F8BE3F3,
    0x2BC42889167F8CAA, 0x2D502609EC95647C, 0x2EDBB3BCA17E628F, 0x3066CDD138C98B73,
    0x31F17078D34C156D, 0x337B97E5B886CCCB, 0x3505404B6008A13C, 0x368E65DE7ACE44DE,
    0x381704D4FC9EC5F9, 0x399F196625650C49, 0x3B269FCA8A8622BB, 0x3CAD943C203436A3,
    0x3E33F2F642BE355F, 0x3FB9B835BFDBF169, 0x413EE038DFF6B7FD, 0x42C3673F6F6E404F,
    0x4447498AC7D9DD82, 0x45CA835DD945DC91, 0x474D10FD336CF747, 0x48CEEEAF0EEDC59A,
    0x4A5018BB567C16A3, 0x4BD08B6BB00E1A8B, 0x4D50430B860546C3, 0x4ECF3BE81052DDF3,
    0x504D72505D98050D, 0x51CAE2955C414EFE, 0x53478909E39DA892, 0x54C36202BCF08E05,
    0x563E69D6AC7F73F8, 0x57B89CDE7A9A4D63, 0x5931F774FC9F1844, 0x5AAA75F71DF85AC7,
    0x5C2214C3E9167ABB, 0x5D98D03C9063D92B, 0x5F0EA4C477339C06, 0x60838EC13AAB0FCE,
    0x61F78A9ABAA58B47, 0x636A94BB2292BF47, 0x64DCA98EF24F5CB4, 0x664DC58506F7FAEA,
    0x67BDE50EA3B628B7, 0x692D049F7A879241, 0x6A9B20ADB4FF262A, 0x6C0835B1FD002450,
    0x6D744027857300AE, 0x6EDF3C8C12F404CF, 0x70492760047B9A7F, 0x71B1FD265C002A41,
    0x7319BA64C711785A, 0x74805BA3A76D6B1C, 0x75E5DD6E1B8E2555, 0x774A3C5207315FC3,
    0x78AD74E01BD8EC78, 0x7A0F83ABE1444F42, 0x7B70654BBDE35623, 0x7CD01658FF419D07,
    0x7E2E936FE26AE7ED, 0x7F8BD92F9C483ED7, 0x80E7E43A61F5B6CB, 0x8242B1357110D372,
    0x839C3CC917FF6CB5, 0x84F483A0BE2F0403, 0x864B826AEC4C74E6, 0x87A135D95473EC89,
    0x88F59AA0DA591422, 0x8A48AD799B6759F3, 0x8B9A6B1EF6DA4502, 0x8CEAD04F95CDBF66,
    0x8E39D9CD73464365, 0x8F87845DE430D778, 0x90D3CCC99F5AC58B, 0x921EAFDCC560F9C5,
    0x93682A66E896F545, 0x94B0393B14E54157, 0x95F6D92FD79F4FBB, 0x973C071F4750B49D,
    0x987FBFE70B81A708, 0x99C200686472B4A8, 0x9B02C58832CF95C0, 0x9C420C2EFF590E60,
    0x9D7FD1490285C9E4, 0x9EBC11C62C1A1DFC, 0x9FF6CA9A2AB6A26D, 0xA12FF8BC735D8AF6,
    0xA267992848EEB0C0, 0xA39DA8DCC39A38E5, 0xA4D224DCD849C5B0, 0xA6050A2F6000204A,
    0xA73655DF1F2F489E, 0xA86604FACD04D969, 0xA99414951AACAE5F, 0xAAC081C4BA89BA8B,
    0xABEB49A46764FD15, 0xAD146952EB9282AF, 0xAE3BDDF3280C620D, 0xAF61A4AC1B83A1DF,
    0xB085BAA8E966F6DB, 0xB1A81D18E0DF4889, 0xB2C8C92F83C1EB88, 0xB3E7BC248D78802F,
    0xB504F333F9DE6484, 0xB6206B9E0C13A893, 0xB73A22A755457448, 0xB8521598BB6BCE26,
    0xB96841BF7FFCB21B, 0xBA7CA46D46946802, 0xBB8F3AF81B93095D, 0xBCA002BA7AAF25EA,
    0xBDAEF913557D76F1, 0xBEBC1B6619ED9116, 0xBFC7671AB8BB84C7, 0xC0D0D99DABD65D44,
    0xC1D8705FFCBB6E91, 0xC2DE28D74AC6628B, 0xC3E2007DD175F5A5, 0xC4E3F4D26EA553B7,
    0xC5E40358A8BA05A7, 0xC6E22998B4C6608F, 0xC7DE651F7CA06749, 0xC8D8B37EA4ED0F62,
    0xC9D1124C931FDA7B, 0xCAC77F24736EB554, 0xCBBBF7A63EBA0DD5, 0xCCAE7976C0691178,
    0xCD9F023F9C3A059E, 0xCE8D8FAF5406AB8C, 0xCF7A1F794D7CA1B2, 0xD064AF55D7C9B43E,
    0xD14D3D02313C0EED, 0xD233C6408CD64237, 0xD31848D817D70E17, 0xD3FAC294FF34E4D1,
    0xD4DB3148750D181A, 0xD5B992C8B606A351, 0xD695E4F10EA88570, 0xD77025A1E0A39D8B,
    0xD84852C0A80FFCDB, 0xD91E6A38009DA15A, 0xD9F269F7AAB88C29, 0xDAC44FF490A02710,
    0xDB941A28CB71EC87, 0xDC61C693A82745D6, 0xDD2D5339AC8692FD, 0xDDF6BE249C075038,
    0xDEBE05637CA94CFB, 0xDF83270A9BBEE891, 0xE046213392AA486C, 0xE106F1FD4B8D7C96,
    0xE1C5978C05ED8692, 0xE28210095B483752, 0xE33C59A4439CD8EC, 0xE3F4729119E798D9,
    0xE4AA5909A08FA7B4, 0xE55E0B4D05C80388, 0xE60F879FE7E2E1E5, 0xE6BECC4C5997AF07,
    0xE76BD7A1E63B9786, 0xE816A7F595EC9233, 0xE8BF3BA1F1AEDFBC, 0xE9659107077CF610,
    0xEA09A68A6E49CD62, 0xEAAB7A9749F584FE, 0xEB4B0B9E4F345617, 0xEBE85815C767CB00,
    0xEC835E79946A3145, 0xED1C1D4B344C3D50, 0xEDB29311C504D652, 0xEE46BE5A0813016B,
    0xEED89DB66611E308, 0xEF682FBEF23ECDA6, 0xEFF573116DF1555D, 0xF08066514C055F7F,
    0xF1090827B43725FD, 0xF18F574386712644, 0xF21352595E0BF351, 0xF294F82394FFE321,
    0xF314476247088F75, 0xF3913EDB54BA2242, 0xF40BDD5A6688662F, 0xF48421B0EFBF939C,
    0xF4FA0AB6316ED2EC, 0xF56D97473D446CDA, 0xF5DEC646F85BA1C7, 0xF64D969E1DFC2119,
    0xF6BA073B424B19E8, 0xF7241712D4EDDE4A, 0xF78BC51F239E12C6, 0xF7F110605CAF6391,
    0xF853F7DC9186B953, 0xF8B47A9FB902E76D, 0xF91297BBB1D6CDBE, 0xF96E4E4844D4E82B,
    0xF9C79D63272C4628, 0xFA1E842FFC96E4E0, 0xFA7301D859796671, 0xFAC5158BC4F4211F,
    0xFB14BE7FBAE58156, 0xFB61FBEFADDDB985, 0xFBACCD1D0903BB0A, 0xFBF5314F31EB7375,
    0xFC3B27D38A5D49AB, 0xFC7EAFFD720ED673, 0xFCBFC926484CD43B, 0xFCFE72AD6D9641F3,
    0xFD3AABF84528B50C, 0xFD747472367DD6C5, 0xFDABCB8CAEBA091C, 0xFDE0B0BF220C2FD5,
    0xFE1323870CFE9A3E, 0xFE432367F5B90A63, 0xFE70AFEB6D33D6A2, 0xFE9BC8A1105C22A6,
    0xFEC46D1E89292CF0, 0xFEEA9CFF8FA2AE55, 0xFF0E57E5EAD848D1, 0xFF2F9D7971CA0364,
    0xFF4E6D680C41D0A9, 0xFF6AC765B39E1E19, 0xFF84AB2C738D6A03, 0xFF9C187C6ABADE6A,
    0xFFB10F1BCB6BEF1D, 0xFFC38ED6DC0EF98B, 0xFFD3977FF7BAE4E9, 0xFFE128EF8E9FC17A,
    0xFFEC4304266865D9, 0xFFF4E5A25A8D095B, 0xFFFB10B4DC96DABC, 0xFFFEC42C7454926B,
];

/// The table starts at exactly zero: the sine of zero rotations.
pub proof fn lemma_curve_starts_at_zero()
    ensures
        CURVE[0] == 0,
{
}

/// Adjacent table entries never decrease.
proof fn lemma_curve_adjacent(n: int)
    requires
        0 <= n < 255,
    ensures
        CURVE[n] <= CURVE[n + 1],
{
}

/// The table rises monotonically over its whole domain: sine increases
/// over a quarter turn, and the samples keep that order.
pub proof fn lemma_curve_monotone(i: int, j: int)
    requires
        0 <= i <= j < 256,
    ensures
        CURVE[i] <= CURVE[j],
    decreases j - i,
{
    if i < j {
        lemma_curve_adjacent(i);
        lemma_curve_monotone(i + 1, j);
    }
}

} // verus!

//! The fixed table of CVSS v4.0 scores by MacroVector.

use vstd::prelude::*;
use crate::v4_0::scoring::MacroVector;

verus! {

/// The scores, in tenths, of the MacroVectors with EQ1 = 0 and EQ2 = 0.
pub open spec fn block_00(eq3: u8, eq4: u8, eq5: u8, eq6: u8) -> Option<u8> {
    match (eq3, eq4, eq5, eq6) {
        (0, 0, 0, 0) => Some(100),
        (0, 0, 0, 1) => Some(99),
        (0, 0, 1, 0) => Some(98),
        (0, 0, 1, 1) => Some(95),
        (0, 0, 2, 0) => Some(95),
        (0, 0, 2, 1) => Some(92),
        (0, 1, 0, 0) => Some(100),
        (0, 1, 0, 1) => Some(96),
        (0, 1, 1, 0) => Some(93),
        (0, 1, 1, 1) => Some(87),
        (0, 1, 2, 0) => Some(91),
        (0, 1, 2, 1) => Some(81),
        (0, 2, 0, 0) => Some(93),
        (0, 2, 0, 1) => Some(90),
        (0, 2, 1, 0) => Some(89),
        (0, 2, 1, 1) => Some(80),
        (0, 2, 2, 0) => Some(81),
        (0, 2, 2, 1) => Some(68),
        (1, 0, 0, 0) => Some(98),
        (1, 0, 0, 1) => Some(95),
        (1, 0, 1, 0) => Some(95),
        (1, 0, 1, 1) => Some(92),
        (1, 0, 2, 0) => Some(90),
        (1, 0, 2, 1) => Some(84),
        (1, 1, 0, 0) => Some(93),
        (1, 1, 0, 1) => Some(92),
        (1, 1, 1, 0) => Some(89),
        (1, 1, 1, 1) => Some(81),
        (1, 1, 2, 0) => Some(81),
        (1, 1, 2, 1) => Some(65),
        (1, 2, 0, 0) => Some(88),
        (1, 2, 0, 1) => Some(80),
        (1, 2, 1, 0) => Some(78),
        (1, 2, 1, 1) => Some(70),
        (1, 2, 2, 0) => Some(69),
        (1, 2, 2, 1) => Some(48),
        (2, 0, 0, 1) => Some(92),
        (2, 0, 1, 1) => Some(82),
        (2, 0, 2, 1) => Some(72),
        (2, 1, 0, 1) => Some(79),
        (2, 1, 1, 1) => Some(69),
        (2, 1, 2, 1) => Some(50),
        (2, 2, 0, 1) => Some(69),
        (2, 2, 1, 1) => Some(55),
        (2, 2, 2, 1) => Some(27),
        _ => None,
    }
}

/// The scores, in tenths, of the MacroVectors with EQ1 = 0 and EQ2 = 0.
fn lookup_00(eq3: u8, eq4: u8, eq5: u8, eq6: u8) -> (r: Option<u8>)
    ensures
        r == block_00(eq3, eq4, eq5, eq6),
        r is Some ==> r->0 <= 100,
{
    match (eq3, eq4, eq5, eq6) {
        (0, 0, 0, 0) => Some(100),
        (0, 0, 0, 1) => Some(99),
        (0, 0, 1, 0) => Some(98),
        (0, 0, 1, 1) => Some(95),
        (0, 0, 2, 0) => Some(95),
        (0, 0, 2, 1) => Some(92),
        (0, 1, 0, 0) => Some(100),
        (0, 1, 0, 1) => Some(96),
        (0, 1, 1, 0) => Some(93),
        (0, 1, 1, 1) => Some(87),
        (0, 1, 2, 0) => Some(91),
        (0, 1, 2, 1) => Some(81),
        (0, 2, 0, 0) => Some(93),
        (0, 2, 0, 1) => Some(90),
        (0, 2, 1, 0) => Some(89),
        (0, 2, 1, 1) => Some(80),
        (0, 2, 2, 0) => Some(81),
        (0, 2, 2, 1) => Some(68),
        (1, 0, 0, 0) => Some(98),
        (1, 0, 0, 1) => Some(95),
        (1, 0, 1, 0) => Some(95),
        (1, 0, 1, 1) => Some(92),
        (1, 0, 2, 0) => Some(90),
        (1, 0, 2, 1) => Some(84),
        (1, 1, 0, 0) => Some(93),
        (1, 1, 0, 1) => Some(92),
        (1, 1, 1, 0) => Some(89),
        (1, 1, 1, 1) => Some(81),
        (1, 1, 2, 0) => Some(81),
        (1, 1, 2, 1) => Some(65),
        (1, 2, 0, 0) => Some(88),
        (1, 2, 0, 1) => Some(80),
        (1, 2, 1, 0) => Some(78),
        (1, 2, 1, 1) => Some(70),
        (1, 2, 2, 0) => Some(69),
        (1, 2, 2, 1) => Some(48),
        (2, 0, 0, 1) => Some(92),
        (2, 0, 1, 1) => Some(82),
        (2, 0, 2, 1) => Some(72),
        (2, 1, 0, 1) => Some(79),
        (2, 1, 1, 1) => Some(69),
        (2, 1, 2, 1) => Some(50),
        (2, 2, 0, 1) => Some(69),
        (2, 2, 1, 1) => Some(55),
        (2, 2, 2, 1) => Some(27),
        _ => None,
    }
}

/// The scores, in tenths, of the MacroVectors with EQ1 = 0 and EQ2 = 1.
pub open spec fn block_01(eq3: u8, eq4: u8, eq5: u8, eq6: u8) -> Option<u8> {
    match (eq3, eq4, eq5, eq6) {
        (0, 0, 0, 0) => Some(99),
        (0, 0, 0, 1) => Some(97),
        (0, 0, 1, 0) => Some(95),
        (0, 0, 1, 1) => Some(92),
        (0, 0, 2, 0) => Some(92),
        (0, 0, 2, 1) => Some(85),
        (0, 1, 0, 0) => Some(95),
        (0, 1, 0, 1) => Some(91),
        (0, 1, 1, 0) => Some(90),
        (0, 1, 1, 1) => Some(83),
        (0, 1, 2, 0) => Some(84),
        (0, 1, 2, 1) => Some(71),
        (0, 2, 0, 0) => Some(92),
        (0, 2, 0, 1) => Some(81),
        (0, 2, 1, 0) => Some(82),
        (0, 2, 1, 1) => Some(71),
        (0, 2, 2, 0) => Some(72),
        (0, 2, 2, 1) => Some(53),
        (1, 0, 0, 0) => Some(95),
        (1, 0, 0, 1) => Some(93),
        (1, 0, 1, 0) => Some(92),
        (1, 0, 1, 1) => Some(85),
        (1, 0, 2, 0) => Some(85),
        (1, 0, 2, 1) => Some(73),
        (1, 1, 0, 0) => Some(92),
        (1, 1, 0, 1) => Some(82),
        (1, 1, 1, 0) => Some(80),
        (1, 1, 1, 1) => Some(72),
        (1, 1, 2, 0) => Some(70),
        (1, 1, 2, 1) => Some(59),
        (1, 2, 0, 0) => Some(84),
        (1, 2, 0, 1) => Some(70),
        (1, 2, 1, 0) => Some(71),
        (1, 2, 1, 1) => Some(52),
        (1, 2, 2, 0) => Some(50),
        (1, 2, 2, 1) => Some(30),
        (2, 0, 0, 1) => Some(86),
        (2, 0, 1, 1) => Some(75),
        (2, 0, 2, 1) => Some(52),
        (2, 1, 0, 1) => Some(71),
        (2, 1, 1, 1) => Some(52),
        (2, 1, 2, 1) => Some(29),
        (2, 2, 0, 1) => Some(63),
        (2, 2, 1, 1) => Some(29),
        (2, 2, 2, 1) => Some(17),
        _ => None,
    }
}

/// The scores, in tenths, of the MacroVectors with EQ1 = 0 and EQ2 = 1.
fn lookup_01(eq3: u8, eq4: u8, eq5: u8, eq6: u8) -> (r: Option<u8>)
    ensures
        r == block_01(eq3, eq4, eq5, eq6),
        r is Some ==> r->0 <= 100,
{
    match (eq3, eq4, eq5, eq6) {
        (0, 0, 0, 0) => Some(99),
        (0, 0, 0, 1) => Some(97),
        (0, 0, 1, 0) => Some(95),
        (0, 0, 1, 1) => Some(92),
        (0, 0, 2, 0) => Some(92),
        (0, 0, 2, 1) => Some(85),
        (0, 1, 0, 0) => Some(95),
        (0, 1, 0, 1) => Some(91),
        (0, 1, 1, 0) => Some(90),
        (0, 1, 1, 1) => Some(83),
        (0, 1, 2, 0) => Some(84),
        (0, 1, 2, 1) => Some(71),
        (0, 2, 0, 0) => Some(92),
        (0, 2, 0, 1) => Some(81),
        (0, 2, 1, 0) => Some(82),
        (0, 2, 1, 1) => Some(71),
        (0, 2, 2, 0) => Some(72),
        (0, 2, 2, 1) => Some(53),
        (1, 0, 0, 0) => Some(95),
        (1, 0, 0, 1) => Some(93),
        (1, 0, 1, 0) => Some(92),
        (1, 0, 1, 1) => Some(85),
        (1, 0, 2, 0) => Some(85),
        (1, 0, 2, 1) => Some(73),
        (1, 1, 0, 0) => Some(92),
        (1, 1, 0, 1) => Some(82),
        (1, 1, 1, 0) => Some(80),
        (1, 1, 1, 1) => Some(72),
        (1, 1, 2, 0) => Some(70),
        (1, 1, 2, 1) => Some(59),
        (1, 2, 0, 0) => Some(84),
        (1, 2, 0, 1) => Some(70),
        (1, 2, 1, 0) => Some(71),
        (1, 2, 1, 1) => Some(52),
        (1, 2, 2, 0) => Some(50),
        (1, 2, 2, 1) => Some(30),
        (2, 0, 0, 1) => Some(86),
        (2, 0, 1, 1) => Some(75),
        (2, 0, 2, 1) => Some(52),
        (2, 1, 0, 1) => Some(71),
        (2, 1, 1, 1) => Some(52),
        (2, 1, 2, 1) => Some(29),
        (2, 2, 0, 1) => Some(63),
        (2, 2, 1, 1) => Some(29),
        (2, 2, 2, 1) => Some(17),
        _ => None,
    }
}

/// The scores, in tenths, of the MacroVectors with EQ1 = 1 and EQ2 = 0.
pub open spec fn block_10(eq3: u8, eq4: u8, eq5: u8, eq6: u8) -> Option<u8> {
    match (eq3, eq4, eq5, eq6) {
        (0, 0, 0, 0) => Some(98),
        (0, 0, 0, 1) => Some(95),
        (0, 0, 1, 0) => Some(94),
        (0, 0, 1, 1) => Some(87),
        (0, 0, 2, 0) => Some(91),
        (0, 0, 2, 1) => Some(81),
        (0, 1, 0, 0) => Some(94),
        (0, 1, 0, 1) => Some(89),
        (0, 1, 1, 0) => Some(86),
        (0, 1, 1, 1) => Some(74),
        (0, 1, 2, 0) => Some(77),
        (0, 1, 2, 1) => Some(64),
        (0, 2, 0, 0) => Some(87),
        (0, 2, 0, 1) => Some(75),
        (0, 2, 1, 0) => Some(74),
        (0, 2, 1, 1) => Some(63),
        (0, 2, 2, 0) => Some(63),
        (0, 2, 2, 1) => Some(49),
        (1, 0, 0, 0) => Some(94),
        (1, 0, 0, 1) => Some(89),
        (1, 0, 1, 0) => Some(88),
        (1, 0, 1, 1) => Some(77),
        (1, 0, 2, 0) => Some(76),
        (1, 0, 2, 1) => Some(67),
        (1, 1, 0, 0) => Some(86),
        (1, 1, 0, 1) => Some(76),
        (1, 1, 1, 0) => Some(74),
        (1, 1, 1, 1) => Some(58),
        (1, 1, 2, 0) => Some(59),
        (1, 1, 2, 1) => Some(50),
        (1, 2, 0, 0) => Some(72),
        (1, 2, 0, 1) => Some(57),
        (1, 2, 1, 0) => Some(57),
        (1, 2, 1, 1) => Some(52),
        (1, 2, 2, 0) => Some(52),
        (1, 2, 2, 1) => Some(25),
        (2, 0, 0, 1) => Some(83),
        (2, 0, 1, 1) => Some(70),
        (2, 0, 2, 1) => Some(54),
        (2, 1, 0, 1) => Some(65),
        (2, 1, 1, 1) => Some(58),
        (2, 1, 2, 1) => Some(26),
        (2, 2, 0, 1) => Some(53),
        (2, 2, 1, 1) => Some(21),
        (2, 2, 2, 1) => Some(13),
        _ => None,
    }
}

/// The scores, in tenths, of the MacroVectors with EQ1 = 1 and EQ2 = 0.
fn lookup_10(eq3: u8, eq4: u8, eq5: u8, eq6: u8) -> (r: Option<u8>)
    ensures
        r == block_10(eq3, eq4, eq5, eq6),
        r is Some ==> r->0 <= 100,
{
    match (eq3, eq4, eq5, eq6) {
        (0, 0, 0, 0) => Some(98),
        (0, 0, 0, 1) => Some(95),
        (0, 0, 1, 0) => Some(94),
        (0, 0, 1, 1) => Some(87),
        (0, 0, 2, 0) => Some(91),
        (0, 0, 2, 1) => Some(81),
        (0, 1, 0, 0) => Some(94),
        (0, 1, 0, 1) => Some(89),
        (0, 1, 1, 0) => Some(86),
        (0, 1, 1, 1) => Some(74),
        (0, 1, 2, 0) => Some(77),
        (0, 1, 2, 1) => Some(64),
        (0, 2, 0, 0) => Some(87),
        (0, 2, 0, 1) => Some(75),
        (0, 2, 1, 0) => Some(74),
        (0, 2, 1, 1) => Some(63),
        (0, 2, 2, 0) => Some(63),
        (0, 2, 2, 1) => Some(49),
        (1, 0, 0, 0) => Some(94),
        (1, 0, 0, 1) => Some(89),
        (1, 0, 1, 0) => Some(88),
        (1, 0, 1, 1) => Some(77),
        (1, 0, 2, 0) => Some(76),
        (1, 0, 2, 1) => Some(67),
        (1, 1, 0, 0) => Some(86),
        (1, 1, 0, 1) => Some(76),
        (1, 1, 1, 0) => Some(74),
        (1, 1, 1, 1) => Some(58),
        (1, 1, 2, 0) => Some(59),
        (1, 1, 2, 1) => Some(50),
        (1, 2, 0, 0) => Some(72),
        (1, 2, 0, 1) => Some(57),
        (1, 2, 1, 0) => Some(57),
        (1, 2, 1, 1) => Some(52),
        (1, 2, 2, 0) => Some(52),
        (1, 2, 2, 1) => Some(25),
        (2, 0, 0, 1) => Some(83),
        (2, 0, 1, 1) => Some(70),
        (2, 0, 2, 1) => Some(54),
        (2, 1, 0, 1) => Some(65),
        (2, 1, 1, 1) => Some(58),
        (2, 1, 2, 1) => Some(26),
        (2, 2, 0, 1) => Some(53),
        (2, 2, 1, 1) => Some(21),
        (2, 2, 2, 1) => Some(13),
        _ => None,
    }
}

/// The scores, in tenths, of the MacroVectors with EQ1 = 1 and EQ2 = 1.
pub open spec fn block_11(eq3: u8, eq4: u8, eq5: u8, eq6: u8) -> Option<u8> {
    match (eq3, eq4, eq5, eq6) {
        (0, 0, 0, 0) => Some(95),
        (0, 0, 0, 1) => Some(90),
        (0, 0, 1, 0) => Some(88),
        (0, 0, 1, 1) => Some(76),
        (0, 0, 2, 0) => Some(76),
        (0, 0, 2, 1) => Some(70),
        (0, 1, 0, 0) => Some(90),
        (0, 1, 0, 1) => Some(77),
        (0, 1, 1, 0) => Some(75),
        (0, 1, 1, 1) => Some(62),
        (0, 1, 2, 0) => Some(61),
        (0, 1, 2, 1) => Some(53),
        (0, 2, 0, 0) => Some(77),
        (0, 2, 0, 1) => Some(66),
        (0, 2, 1, 0) => Some(68),
        (0, 2, 1, 1) => Some(59),
        (0, 2, 2, 0) => Some(52),
        (0, 2, 2, 1) => Some(30),
        (1, 0, 0, 0) => Some(89),
        (1, 0, 0, 1) => Some(78),
        (1, 0, 1, 0) => Some(76),
        (1, 0, 1, 1) => Some(67),
        (1, 0, 2, 0) => Some(62),
        (1, 0, 2, 1) => Some(58),
        (1, 1, 0, 0) => Some(74),
        (1, 1, 0, 1) => Some(59),
        (1, 1, 1, 0) => Some(57),
        (1, 1, 1, 1) => Some(57),
        (1, 1, 2, 0) => Some(47),
        (1, 1, 2, 1) => Some(23),
        (1, 2, 0, 0) => Some(61),
        (1, 2, 0, 1) => Some(52),
        (1, 2, 1, 0) => Some(57),
        (1, 2, 1, 1) => Some(29),
        (1, 2, 2, 0) => Some(24),
        (1, 2, 2, 1) => Some(16),
        (2, 0, 0, 1) => Some(71),
        (2, 0, 1, 1) => Some(59),
        (2, 0, 2, 1) => Some(30),
        (2, 1, 0, 1) => Some(58),
        (2, 1, 1, 1) => Some(26),
        (2, 1, 2, 1) => Some(15),
        (2, 2, 0, 1) => Some(23),
        (2, 2, 1, 1) => Some(13),
        (2, 2, 2, 1) => Some(6),
        _ => None,
    }
}

/// The scores, in tenths, of the MacroVectors with EQ1 = 1 and EQ2 = 1.
fn lookup_11(eq3: u8, eq4: u8, eq5: u8, eq6: u8) -> (r: Option<u8>)
    ensures
        r == block_11(eq3, eq4, eq5, eq6),
        r is Some ==> r->0 <= 100,
{
    match (eq3, eq4, eq5, eq6) {
        (0, 0, 0, 0) => Some(95),
        (0, 0, 0, 1) => Some(90),
        (0, 0, 1, 0) => Some(88),
        (0, 0, 1, 1) => Some(76),
        (0, 0, 2, 0) => Some(76),
        (0, 0, 2, 1) => Some(70),
        (0, 1, 0, 0) => Some(90),
        (0, 1, 0, 1) => Some(77),
        (0, 1, 1, 0) => Some(75),
        (0, 1, 1, 1) => Some(62),
        (0, 1, 2, 0) => Some(61),
        (0, 1, 2, 1) => Some(53),
        (0, 2, 0, 0) => Some(77),
        (0, 2, 0, 1) => Some(66),
        (0, 2, 1, 0) => Some(68),
        (0, 2, 1, 1) => Some(59),
        (0, 2, 2, 0) => Some(52),
        (0, 2, 2, 1) => Some(30),
        (1, 0, 0, 0) => Some(89),
        (1, 0, 0, 1) => Some(78),
        (1, 0, 1, 0) => Some(76),
        (1, 0, 1, 1) => Some(67),
        (1, 0, 2, 0) => Some(62),
        (1, 0, 2, 1) => Some(58),
        (1, 1, 0, 0) => Some(74),
        (1, 1, 0, 1) => Some(59),
        (1, 1, 1, 0) => Some(57),
        (1, 1, 1, 1) => Some(57),
        (1, 1, 2, 0) => Some(47),
        (1, 1, 2, 1) => Some(23),
        (1, 2, 0, 0) => Some(61),
        (1, 2, 0, 1) => Some(52),
        (1, 2, 1, 0) => Some(57),
        (1, 2, 1, 1) => Some(29),
        (1, 2, 2, 0) => Some(24),
        (1, 2, 2, 1) => Some(16),
        (2, 0, 0, 1) => Some(71),
        (2, 0, 1, 1) => Some(59),
        (2, 0, 2, 1) => Some(30),
        (2, 1, 0, 1) => Some(58),
        (2, 1, 1, 1) => Some(26),
        (2, 1, 2, 1) => Some(15),
        (2, 2, 0, 1) => Some(23),
        (2, 2, 1, 1) => Some(13),
        (2, 2, 2, 1) => Some(6),
        _ => None,
    }
}

/// The scores, in tenths, of the MacroVectors with EQ1 = 2 and EQ2 = 0.
pub open spec fn block_20(eq3: u8, eq4: u8, eq5: u8, eq6: u8) -> Option<u8> {
    match (eq3, eq4, eq5, eq6) {
        (0, 0, 0, 0) => Some(93),
        (0, 0, 0, 1) => Some(87),
        (0, 0, 1, 0) => Some(86),
        (0, 0, 1, 1) => Some(72),
        (0, 0, 2, 0) => Some(75),
        (0, 0, 2, 1) => Some(58),
        (0, 1, 0, 0) => Some(86),
        (0, 1, 0, 1) => Some(74),
        (0, 1, 1, 0) => Some(74),
        (0, 1, 1, 1) => Some(61),
        (0, 1, 2, 0) => Some(56),
        (0, 1, 2, 1) => Some(34),
        (0, 2, 0, 0) => Some(70),
        (0, 2, 0, 1) => Some(54),
        (0, 2, 1, 0) => Some(52),
        (0, 2, 1, 1) => Some(40),
        (0, 2, 2, 0) => Some(40),
        (0, 2, 2, 1) => Some(22),
        (1, 0, 0, 0) => Some(85),
        (1, 0, 0, 1) => Some(75),
        (1, 0, 1, 0) => Some(74),
        (1, 0, 1, 1) => Some(55),
        (1, 0, 2, 0) => Some(62),
        (1, 0, 2, 1) => Some(51),
        (1, 1, 0, 0) => Some(72),
        (1, 1, 0, 1) => Some(57),
        (1, 1, 1, 0) => Some(55),
        (1, 1, 1, 1) => Some(41),
        (1, 1, 2, 0) => Some(46),
        (1, 1, 2, 1) => Some(19),
        (1, 2, 0, 0) => Some(53),
        (1, 2, 0, 1) => Some(36),
        (1, 2, 1, 0) => Some(34),
        (1, 2, 1, 1) => Some(19),
        (1, 2, 2, 0) => Some(19),
        (1, 2, 2, 1) => Some(8),
        (2, 0, 0, 1) => Some(64),
        (2, 0, 1, 1) => Some(51),
        (2, 0, 2, 1) => Some(20),
        (2, 1, 0, 1) => Some(47),
        (2, 1, 1, 1) => Some(21),
        (2, 1, 2, 1) => Some(11),
        (2, 2, 0, 1) => Some(24),
        (2, 2, 1, 1) => Some(9),
        (2, 2, 2, 1) => Some(4),
        _ => None,
    }
}

/// The scores, in tenths, of the MacroVectors with EQ1 = 2 and EQ2 = 0.
fn lookup_20(eq3: u8, eq4: u8, eq5: u8, eq6: u8) -> (r: Option<u8>)
    ensures
        r == block_20(eq3, eq4, eq5, eq6),
        r is Some ==> r->0 <= 100,
{
    match (eq3, eq4, eq5, eq6) {
        (0, 0, 0, 0) => Some(93),
        (0, 0, 0, 1) => Some(87),
        (0, 0, 1, 0) => Some(86),
        (0, 0, 1, 1) => Some(72),
        (0, 0, 2, 0) => Some(75),
        (0, 0, 2, 1) => Some(58),
        (0, 1, 0, 0) => Some(86),
        (0, 1, 0, 1) => Some(74),
        (0, 1, 1, 0) => Some(74),
        (0, 1, 1, 1) => Some(61),
        (0, 1, 2, 0) => Some(56),
        (0, 1, 2, 1) => Some(34),
        (0, 2, 0, 0) => Some(70),
        (0, 2, 0, 1) => Some(54),
        (0, 2, 1, 0) => Some(52),
        (0, 2, 1, 1) => Some(40),
        (0, 2, 2, 0) => Some(40),
        (0, 2, 2, 1) => Some(22),
        (1, 0, 0, 0) => Some(85),
        (1, 0, 0, 1) => Some(75),
        (1, 0, 1, 0) => Some(74),
        (1, 0, 1, 1) => Some(55),
        (1, 0, 2, 0) => Some(62),
        (1, 0, 2, 1) => Some(51),
        (1, 1, 0, 0) => Some(72),
        (1, 1, 0, 1) => Some(57),
        (1, 1, 1, 0) => Some(55),
        (1, 1, 1, 1) => Some(41),
        (1, 1, 2, 0) => Some(46),
        (1, 1, 2, 1) => Some(19),
        (1, 2, 0, 0) => Some(53),
        (1, 2, 0, 1) => Some(36),
        (1, 2, 1, 0) => Some(34),
        (1, 2, 1, 1) => Some(19),
        (1, 2, 2, 0) => Some(19),
        (1, 2, 2, 1) => Some(8),
        (2, 0, 0, 1) => Some(64),
        (2, 0, 1, 1) => Some(51),
        (2, 0, 2, 1) => Some(20),
        (2, 1, 0, 1) => Some(47),
        (2, 1, 1, 1) => Some(21),
        (2, 1, 2, 1) => Some(11),
        (2, 2, 0, 1) => Some(24),
        (2, 2, 1, 1) => Some(9),
        (2, 2, 2, 1) => Some(4),
        _ => None,
    }
}

/// The scores, in tenths, of the MacroVectors with EQ1 = 2 and EQ2 = 1.
pub open spec fn block_21(eq3: u8, eq4: u8, eq5: u8, eq6: u8) -> Option<u8> {
    match (eq3, eq4, eq5, eq6) {
        (0, 0, 0, 0) => Some(88),
        (0, 0, 0, 1) => Some(75),
        (0, 0, 1, 0) => Some(73),
        (0, 0, 1, 1) => Some(53),
        (0, 0, 2, 0) => Some(60),
        (0, 0, 2, 1) => Some(50),
        (0, 1, 0, 0) => Some(73),
        (0, 1, 0, 1) => Some(55),
        (0, 1, 1, 0) => Some(59),
        (0, 1, 1, 1) => Some(40),
        (0, 1, 2, 0) => Some(41),
        (0, 1, 2, 1) => Some(20),
        (0, 2, 0, 0) => Some(54),
        (0, 2, 0, 1) => Some(43),
        (0, 2, 1, 0) => Some(45),
        (0, 2, 1, 1) => Some(22),
        (0, 2, 2, 0) => Some(20),
        (0, 2, 2, 1) => Some(11),
        (1, 0, 0, 0) => Some(75),
        (1, 0, 0, 1) => Some(55),
        (1, 0, 1, 0) => Some(58),
        (1, 0, 1, 1) => Some(45),
        (1, 0, 2, 0) => Some(40),
        (1, 0, 2, 1) => Some(21),
        (1, 1, 0, 0) => Some(61),
        (1, 1, 0, 1) => Some(51),
        (1, 1, 1, 0) => Some(48),
        (1, 1, 1, 1) => Some(18),
        (1, 1, 2, 0) => Some(20),
        (1, 1, 2, 1) => Some(9),
        (1, 2, 0, 0) => Some(46),
        (1, 2, 0, 1) => Some(18),
        (1, 2, 1, 0) => Some(17),
        (1, 2, 1, 1) => Some(7),
        (1, 2, 2, 0) => Some(8),
        (1, 2, 2, 1) => Some(2),
        (2, 0, 0, 1) => Some(53),
        (2, 0, 1, 1) => Some(24),
        (2, 0, 2, 1) => Some(14),
        (2, 1, 0, 1) => Some(24),
        (2, 1, 1, 1) => Some(12),
        (2, 1, 2, 1) => Some(5),
        (2, 2, 0, 1) => Some(10),
        (2, 2, 1, 1) => Some(3),
        (2, 2, 2, 1) => Some(1),
        _ => None,
    }
}

/// The scores, in tenths, of the MacroVectors with EQ1 = 2 and EQ2 = 1.
fn lookup_21(eq3: u8, eq4: u8, eq5: u8, eq6: u8) -> (r: Option<u8>)
    ensures
        r == block_21(eq3, eq4, eq5, eq6),
        r is Some ==> r->0 <= 100,
{
    match (eq3, eq4, eq5, eq6) {
        (0, 0, 0, 0) => Some(88),
        (0, 0, 0, 1) => Some(75),
        (0, 0, 1, 0) => Some(73),
        (0, 0, 1, 1) => Some(53),
        (0, 0, 2, 0) => Some(60),
        (0, 0, 2, 1) => Some(50),
        (0, 1, 0, 0) => Some(73),
        (0, 1, 0, 1) => Some(55),
        (0, 1, 1, 0) => Some(59),
        (0, 1, 1, 1) => Some(40),
        (0, 1, 2, 0) => Some(41),
        (0, 1, 2, 1) => Some(20),
        (0, 2, 0, 0) => Some(54),
        (0, 2, 0, 1) => Some(43),
        (0, 2, 1, 0) => Some(45),
        (0, 2, 1, 1) => Some(22),
        (0, 2, 2, 0) => Some(20),
        (0, 2, 2, 1) => Some(11),
        (1, 0, 0, 0) => Some(75),
        (1, 0, 0, 1) => Some(55),
        (1, 0, 1, 0) => Some(58),
        (1, 0, 1, 1) => Some(45),
        (1, 0, 2, 0) => Some(40),
        (1, 0, 2, 1) => Some(21),
        (1, 1, 0, 0) => Some(61),
        (1, 1, 0, 1) => Some(51),
        (1, 1, 1, 0) => Some(48),
        (1, 1, 1, 1) => Some(18),
        (1, 1, 2, 0) => Some(20),
        (1, 1, 2, 1) => Some(9),
        (1, 2, 0, 0) => Some(46),
        (1, 2, 0, 1) => Some(18),
        (1, 2, 1, 0) => Some(17),
        (1, 2, 1, 1) => Some(7),
        (1, 2, 2, 0) => Some(8),
        (1, 2, 2, 1) => Some(2),
        (2, 0, 0, 1) => Some(53),
        (2, 0, 1, 1) => Some(24),
        (2, 0, 2, 1) => Some(14),
        (2, 1, 0, 1) => Some(24),
        (2, 1, 1, 1) => Some(12),
        (2, 1, 2, 1) => Some(5),
        (2, 2, 0, 1) => Some(10),
        (2, 2, 1, 1) => Some(3),
        (2, 2, 2, 1) => Some(1),
        _ => None,
    }
}

/// The score, in tenths, that the table holds for a MacroVector. The table has an entry for
/// every MacroVector whose ordinals are in range, except those with EQ3 = 2 and EQ6 = 0.
#[verifier::opaque]
pub open spec fn table_score(mv: MacroVector) -> Option<u8> {
    match (mv.eq1, mv.eq2) {
        (0, 0) => block_00(mv.eq3, mv.eq4, mv.eq5, mv.eq6),
        (0, 1) => block_01(mv.eq3, mv.eq4, mv.eq5, mv.eq6),
        (1, 0) => block_10(mv.eq3, mv.eq4, mv.eq5, mv.eq6),
        (1, 1) => block_11(mv.eq3, mv.eq4, mv.eq5, mv.eq6),
        (2, 0) => block_20(mv.eq3, mv.eq4, mv.eq5, mv.eq6),
        (2, 1) => block_21(mv.eq3, mv.eq4, mv.eq5, mv.eq6),
        _ => None,
    }
}

/// Looks a MacroVector up in the table.
pub fn lookup_global(mv: &MacroVector) -> (r: Option<u8>)
    ensures
        r == table_score(*mv),
        r is Some ==> r->0 <= 100,
{
    proof {
        reveal(table_score);
    }
    match (mv.eq1, mv.eq2) {
        (0, 0) => lookup_00(mv.eq3, mv.eq4, mv.eq5, mv.eq6),
        (0, 1) => lookup_01(mv.eq3, mv.eq4, mv.eq5, mv.eq6),
        (1, 0) => lookup_10(mv.eq3, mv.eq4, mv.eq5, mv.eq6),
        (1, 1) => lookup_11(mv.eq3, mv.eq4, mv.eq5, mv.eq6),
        (2, 0) => lookup_20(mv.eq3, mv.eq4, mv.eq5, mv.eq6),
        (2, 1) => lookup_21(mv.eq3, mv.eq4, mv.eq5, mv.eq6),
        _ => None,
    }
}

/// Whether the ordinals of a MacroVector are those of a table entry.
pub open spec fn in_table(mv: MacroVector) -> bool {
    mv.eq1 <= 2 && mv.eq2 <= 1 && mv.eq3 <= 2 && mv.eq4 <= 2 && mv.eq5 <= 2 && mv.eq6 <= 1
        && !(mv.eq3 == 2 && mv.eq6 == 0)
}

/// The table holds exactly the MacroVectors described by `in_table`, and no score above 10.0.
pub proof fn lemma_table_domain(mv: MacroVector)
    ensures
        table_score(mv) is Some <==> in_table(mv),
        table_score(mv) is Some ==> table_score(mv)->0 <= 100,
{
    reveal(table_score);
}

/// Raising one ordinal of a MacroVector never raises the score.
pub proof fn lemma_table_monotone(mv: MacroVector, lower: MacroVector)
    requires
        mv.eq1 <= lower.eq1,
        mv.eq2 <= lower.eq2,
        mv.eq3 <= lower.eq3,
        mv.eq4 <= lower.eq4,
        mv.eq5 <= lower.eq5,
        mv.eq6 <= lower.eq6,
        mv.eq1 + mv.eq2 + mv.eq3 + mv.eq4 + mv.eq5 + mv.eq6 + 1 == lower.eq1 + lower.eq2 + lower.eq3
            + lower.eq4 + lower.eq5 + lower.eq6,
        table_score(mv) is Some,
        table_score(lower) is Some,
    ensures
        table_score(lower)->0 <= table_score(mv)->0,
{
    reveal(table_score);
}

} // verus!

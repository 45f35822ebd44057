use cvss_rs::v2_0::CvssV2;
use cvss_rs::v3::CvssV3;
use cvss_rs::v4_0::CvssV4;

/// Vectors with their base, temporal and environmental scores in tenths, worked out
/// from the formulas in exact fractions.
const V2_SAMPLES: [(&str, u8, u8, u8); 70] = [
    ("AV:A/AC:H/Au:S/C:N/I:P/A:N/RL:W/CDP:N/TD:M/CR:H/IR:ND/AR:ND", 14, 13, 10),
    ("AV:L/AC:M/Au:M/C:N/I:C/A:P/E:POC/RL:U/CR:H", 48, 43, 43),
    ("AV:A/AC:M/Au:S/C:N/I:C/A:N/RC:C/IR:L", 52, 52, 27),
    ("AV:A/AC:L/Au:S/C:C/I:N/A:P/E:H/RL:ND/RC:UR/TD:H/CR:L/IR:M/AR:ND", 62, 59, 42),
    ("AV:A/AC:L/Au:N/C:N/I:P/A:N/E:H/RL:W/RC:UR/CDP:LM/TD:H", 33, 30, 51),
    ("AV:A/AC:M/Au:M/C:P/I:C/A:N/E:ND/RL:OF/TD:L/IR:M", 54, 47, 12),
    ("AV:L/AC:L/Au:M/C:P/I:N/A:P/RL:U/CDP:H/TD:ND/AR:L", 29, 29, 61),
    ("AV:L/AC:M/Au:M/C:C/I:P/A:N/RC:UR/TD:M/CR:L/IR:H", 48, 46, 26),
    ("AV:A/AC:M/Au:S/C:P/I:C/A:N/E:F/RL:OF/CR:ND", 58, 48, 48),
    ("AV:N/AC:M/Au:S/C:C/I:C/A:C/E:U/RC:UC/TD:N", 85, 65, 0),
    ("AV:L/AC:L/Au:S/C:N/I:P/A:P/E:ND/RL:ND/RC:UC/CDP:LM/IR:H/AR:ND", 32, 29, 55),
    ("AV:N/AC:M/Au:N/C:C/I:N/A:C/E:F/RL:ND/CDP:ND/TD:H/CR:M/IR:ND/AR:M", 88, 84, 84),
    ("AV:N/AC:L/Au:N/C:C/I:C/A:C/E:U/RL:OF/CDP:ND/CR:L/AR:L", 100, 74, 68),
    ("AV:A/AC:L/Au:N/C:N/I:P/A:C/E:H/RL:OF/CDP:H/TD:L/CR:H/IR:M/AR:L", 68, 59, 18),
    ("AV:N/AC:L/Au:S/C:P/I:P/A:N/CDP:MH/TD:ND/CR:L/IR:ND/AR:L", 55, 55, 68),
    ("AV:L/AC:H/Au:S/C:N/I:P/A:N/RL:U/RC:UR/TD:L/CR:M/IR:M/AR:L", 10, 10, 3),
    ("AV:N/AC:M/Au:M/C:N/I:C/A:C/RL:U/RC:C/CDP:N/TD:N", 73, 73, 0),
    ("AV:A/AC:L/Au:S/C:N/I:P/A:P/RC:C/CDP:L/TD:N/CR:H/IR:M/AR:L", 41, 41, 0),
    ("AV:L/AC:M/Au:S/C:C/I:N/A:N/E:U/RC:UC/CR:H/IR:ND/AR:ND", 44, 34, 50),
    ("AV:N/AC:L/Au:S/C:N/I:P/A:P/E:F/RC:C/CDP:LM/CR:ND/AR:ND", 55, 52, 66),
    ("AV:L/AC:H/Au:M/C:P/I:P/A:P/E:ND/RC:UR/CDP:ND/CR:M", 34, 32, 32),
    ("AV:L/AC:H/Au:M/C:C/I:N/A:P/RL:U/RC:UR/CDP:H/TD:M/CR:ND/AR:H", 44, 42, 54),
    ("AV:A/AC:M/Au:M/C:N/I:P/A:N/RC:UR/CDP:N/CR:M/IR:ND/AR:M", 19, 18, 18),
    ("AV:N/AC:L/Au:M/C:C/I:C/A:N/E:U/CR:L/IR:L", 77, 65, 45),
    ("AV:N/AC:L/Au:M/C:C/I:N/A:P/E:H/CR:L/IR:M", 68, 68, 50),
    ("AV:N/AC:L/Au:N/C:P/I:N/A:C/RC:C/CDP:L/TD:ND/IR:H/AR:H", 85, 85, 100),
    ("AV:A/AC:M/Au:M/C:N/I:N/A:C/E:POC/RL:W/RC:UC/CDP:H/TD:ND/CR:M/IR:M", 48, 37, 69),
    ("AV:N/AC:M/Au:N/C:P/I:N/A:C/RL:U/CDP:ND/TD:H/CR:H/IR:L/AR:ND", 78, 78, 82),
    ("AV:N/AC:L/Au:S/C:N/I:P/A:P/E:H/IR:M", 55, 55, 55),
    ("AV:L/AC:H/Au:N/C:C/I:P/A:N/E:ND/RL:U/RC:UR/IR:L/AR:ND", 47, 45, 41),
    ("AV:L/AC:M/Au:S/C:P/I:P/A:C/RL:OF/CDP:MH/CR:L/AR:ND", 55, 48, 68),
    ("AV:N/AC:H/Au:S/C:P/I:N/A:P/E:H/RL:ND/RC:C/TD:M/CR:L/AR:L", 36, 36, 15),
    ("AV:A/AC:H/Au:S/C:N/I:C/A:P/RC:ND/TD:N/AR:L", 50, 50, 0),
    ("AV:A/AC:L/Au:M/C:P/I:C/A:P/E:U/RL:U/CDP:LM/TD:H/CR:ND/IR:ND/AR:M", 62, 53, 67),
    ("AV:L/AC:H/Au:N/C:C/I:C/A:C/E:U/RL:U/CDP:MH/CR:ND", 62, 53, 72),
    ("AV:N/AC:M/Au:S/C:P/I:C/A:N/E:H/RL:W/RC:C/CDP:LM/CR:ND/IR:ND", 70, 67, 77),
    ("AV:L/AC:M/Au:S/C:C/I:C/A:C/E:POC/RL:U/CR:ND/IR:L/AR:M", 66, 59, 57),
    ("AV:L/AC:H/Au:M/C:N/I:C/A:N/RL:W/RC:UC/CDP:H/CR:M/AR:ND", 37, 32, 66),
    ("AV:N/AC:H/Au:M/C:N/I:C/A:C/E:POC/RC:C/AR:H", 62, 56, 61),
    ("AV:L/AC:L/Au:N/C:N/I:P/A:N/RL:W/TD:H/CR:M/IR:H", 21, 20, 29),
    ("AV:N/AC:H/Au:M/C:N/I:P/A:P/E:POC/RL:U/RC:ND/TD:ND/CR:L/IR:ND", 32, 29, 29),
    ("AV:N/AC:H/Au:N/C:N/I:C/A:N/E:U/RC:UR/CDP:ND/CR:ND/IR:L/AR:L", 54, 44, 24),
    ("AV:N/AC:H/Au:M/C:N/I:P/A:P/RC:ND/TD:N/AR:L", 32, 32, 0),
    ("AV:L/AC:H/Au:M/C:P/I:P/A:P/RL:U/RC:C/CR:L/AR:L", 34, 34, 22),
    ("AV:L/AC:L/Au:M/C:P/I:N/A:P/E:H/RL:OF/TD:H/CR:H", 29, 25, 32),
    ("AV:L/AC:L/Au:S/C:P/I:N/A:N/E:U/RL:TF/RC:ND/CDP:N/TD:L/IR:M/AR:ND", 17, 13, 3),
    ("AV:L/AC:M/Au:S/C:P/I:P/A:N/RL:TF/RC:ND/CR:ND/IR:H/AR:L", 30, 27, 33),
    ("AV:L/AC:H/Au:N/C:P/I:P/A:P/RC:UC/CDP:ND/TD:L/CR:L/AR:L", 37, 33, 6),
    ("AV:N/AC:L/Au:N/C:C/I:C/A:P/E:H/RL:W/RC:UC/IR:L", 97, 83, 78),
    ("AV:L/AC:M/Au:M/C:N/I:N/A:C/CR:H/IR:M", 41, 41, 41),
    ("AV:L/AC:L/Au:N/C:P/I:C/A:N/E:F/RC:UR/CDP:LM/CR:H/IR:M", 56, 51, 68),
    ("AV:L/AC:H/Au:S/C:N/I:N/A:C/E:ND/RL:U/RC:ND/TD:L/CR:H/IR:H", 38, 38, 10),
    ("AV:N/AC:H/Au:N/C:C/I:N/A:C/E:POC/RC:C/TD:H/CR:L/IR:ND/AR:L", 71, 64, 41),
    ("AV:L/AC:H/Au:M/C:C/I:N/A:C/RL:U/RC:C/TD:N/CR:ND/IR:M/AR:H", 53, 53, 0),
    ("AV:A/AC:H/Au:N/C:N/I:N/A:C/RC:UC/CDP:MH/TD:M/IR:ND/AR:L", 46, 41, 39),
    ("AV:A/AC:L/Au:N/C:P/I:P/A:P/E:ND/RL:OF/CDP:ND/TD:ND/CR:ND/IR:L/AR:M", 58, 50, 46),
    ("AV:N/AC:L/Au:S/C:C/I:P/A:N/E:F/CDP:MH/TD:M/IR:H", 75, 71, 64),
    ("AV:L/AC:H/Au:N/C:N/I:N/A:C/E:U/RC:ND/TD:H/CR:H/IR:M", 40, 34, 34),
    ("AV:A/AC:H/Au:N/C:N/I:N/A:N/CDP:MH/TD:ND/CR:L/IR:L", 0, 0, 40),
    ("AV:L/AC:M/Au:N/C:P/I:C/A:N/E:H/RL:U/CDP:N/CR:M/IR:ND/AR:ND", 54, 54, 54),
    ("AV:L/AC:M/Au:S/C:C/I:C/A:P/RL:TF/RC:UR/TD:L/CR:L/IR:ND/AR:H", 62, 53, 13),
    ("AV:L/AC:L/Au:S/C:N/I:P/A:P/E:F/RC:C/TD:ND/IR:H", 32, 30, 37),
    ("AV:N/AC:L/Au:S/C:C/I:P/A:C/E:U/RL:ND/CDP:H/TD:L/CR:ND/IR:H/AR:H", 87, 74, 22),
    ("AV:A/AC:H/Au:M/C:N/I:N/A:C/E:U/RL:ND/RC:UR/CDP:ND/AR:L", 40, 32, 13),
    ("AV:A/AC:L/Au:N/C:N/I:P/A:N/E:POC/RL:U/RC:C/TD:ND/IR:ND/AR:ND", 33, 30, 30),
    ("AV:N/AC:H/Au:M/C:P/I:C/A:C/E:ND/RL:W/RC:C/TD:ND/IR:ND/AR:H", 64, 61, 65),
    ("AV:N/AC:L/Au:N/C:P/I:C/A:N/RC:UC/CDP:LM/TD:H", 85, 77, 84),
    ("AV:L/AC:M/Au:S/C:N/I:N/A:C/E:ND/RL:W/CDP:MH/TD:L/CR:H", 44, 42, 16),
    ("AV:N/AC:H/Au:N/C:N/I:P/A:C/E:H/RL:W/RC:UC/CDP:N/TD:H/CR:H/IR:H", 61, 52, 55),
    ("AV:L/AC:L/Au:N/C:C/I:N/A:C/E:H/RL:TF/CDP:ND/AR:M", 66, 59, 59),
];

/// Vectors with their base, temporal and environmental scores in tenths, worked out
/// from the formulas in exact fractions.
const V3_SAMPLES: [(&str, u8, u8, u8); 90] = [
    ("CVSS:3.1/AV:L/AC:H/PR:L/UI:N/S:U/C:L/I:L/A:L/RL:O/CR:M/AR:H/MAV:N/MUI:N/MS:X/MC:N/MI:L/MA:H", 44, 42, 68),
    ("CVSS:3.1/AV:A/AC:L/PR:N/UI:R/S:C/C:H/I:N/A:N/E:F/CR:H/MPR:L/MUI:X/MS:C/MC:L/MI:H", 65, 63, 71),
    ("CVSS:3.1/AV:L/AC:L/PR:H/UI:R/S:U/C:L/I:L/A:N/RL:W/RC:R/MPR:L/MS:U", 31, 29, 36),
    ("CVSS:3.1/AV:A/AC:H/PR:H/UI:R/S:C/C:H/I:N/A:H/RC:U/AR:L/MAC:H/MPR:L/MUI:X/MS:C/MA:N", 70, 64, 49),
    ("CVSS:3.0/AV:P/AC:L/PR:L/UI:N/S:U/C:L/I:L/A:N/IR:L/AR:M/MAV:L/MS:X/MC:X/MA:X", 32, 32, 38),
    ("CVSS:3.0/AV:N/AC:H/PR:L/UI:R/S:C/C:L/I:N/A:L/E:X/RL:W/RC:U/CR:X/IR:M/MPR:H", 43, 38, 36),
    ("CVSS:3.0/AV:P/AC:H/PR:N/UI:R/S:U/C:H/I:N/A:N/RL:O/CR:L/AR:L/MAC:H/MUI:N/MI:N/MA:N", 40, 38, 22),
    ("CVSS:3.1/AV:A/AC:H/PR:H/UI:R/S:C/C:L/I:H/A:L/RL:O/CR:H/AR:H/MAC:H/MS:C/MI:X", 64, 61, 66),
    ("CVSS:3.1/AV:A/AC:H/PR:L/UI:N/S:U/C:N/I:L/A:H/RC:R/IR:L/AR:X/MAV:L/MUI:X/MS:U/MA:X", 54, 52, 48),
    ("CVSS:3.0/AV:N/AC:L/PR:N/UI:N/S:U/C:H/I:N/A:N/RL:U/AR:H/MAC:L/MPR:L/MS:U/MA:H", 75, 75, 87),
    ("CVSS:3.1/AV:A/AC:H/PR:H/UI:R/S:U/C:N/I:N/A:L/E:F/RL:T/CR:H/MAV:N/MAC:L/MS:U/MA:X", 18, 17, 21),
    ("CVSS:3.0/AV:A/AC:L/PR:N/UI:N/S:U/C:N/I:L/A:H/E:U/CR:L/IR:L/MUI:X", 71, 65, 61),
    ("CVSS:3.0/AV:L/AC:H/PR:N/UI:N/S:U/C:N/I:L/A:H/E:U/RL:T/AR:L/MAV:A/MAC:L/MPR:N/MS:U/MC:N", 57, 50, 49),
    ("CVSS:3.0/AV:P/AC:L/PR:H/UI:N/S:C/C:H/I:H/A:H/RL:T/RC:U/IR:M/AR:M/MAC:L/MPR:X/MUI:R/MC:L", 71, 63, 61),
    ("CVSS:3.1/AV:N/AC:H/PR:N/UI:R/S:U/C:N/I:H/A:N/IR:H/MUI:N/MS:X/MI:N/MA:H", 52, 52, 58),
    ("CVSS:3.1/AV:A/AC:L/PR:L/UI:R/S:C/C:L/I:H/A:N/E:X/RL:W/IR:H/MAV:L/MAC:L/MPR:L/MUI:R/MS:C/MC:N/MI:N", 69, 67, 0),
    ("CVSS:3.0/AV:L/AC:L/PR:N/UI:R/S:C/C:N/I:N/A:H/RL:U/RC:X/IR:X/AR:L/MAV:N/MAC:H/MA:L", 63, 63, 24),
    ("CVSS:3.0/AV:N/AC:L/PR:L/UI:N/S:C/C:L/I:L/A:H/RC:X/CR:L/IR:X/AR:L/MAV:L/MI:L", 90, 90, 60),
    ("CVSS:3.1/AV:L/AC:H/PR:H/UI:N/S:C/C:N/I:N/A:N/RC:X/CR:M/MPR:N", 0, 0, 0),
    ("CVSS:3.0/AV:A/AC:L/PR:L/UI:R/S:U/C:H/I:N/A:L/E:H/RC:C/CR:X/IR:L/AR:L/MAC:H/MS:U/MI:L/MA:N", 57, 57, 48),
    ("CVSS:3.0/AV:N/AC:L/PR:N/UI:R/S:U/C:L/I:L/A:N/RL:U/RC:R/CR:H/IR:H/MS:C/MI:H/MA:H", 53, 51, 92),
    ("CVSS:3.1/AV:A/AC:H/PR:H/UI:N/S:U/C:H/I:L/A:L/AR:X/MAC:X/MUI:R/MS:C/MC:X", 52, 52, 64),
    ("CVSS:3.1/AV:N/AC:L/PR:N/UI:N/S:C/C:N/I:L/A:H/E:F/RL:U/CR:H/MS:U/MA:N", 93, 90, 51),
    ("CVSS:3.1/AV:L/AC:H/PR:N/UI:N/S:U/C:H/I:L/A:L/IR:L/MS:U", 61, 61, 59),
    ("CVSS:3.0/AV:N/AC:H/PR:N/UI:N/S:U/C:N/I:L/A:H/RL:W/CR:L/AR:H/MAV:P/MPR:X/MUI:X/MS:X/MC:L/MI:L", 64, 62, 60),
    ("CVSS:3.0/AV:P/AC:H/PR:L/UI:N/S:U/C:N/I:H/A:N/RC:C/CR:X/IR:H/MPR:L/MS:X/MI:H", 40, 40, 58),
    ("CVSS:3.1/AV:L/AC:L/PR:H/UI:N/S:U/C:H/I:L/A:L/E:U/RL:O/RC:U/CR:X/AR:H/MAV:P/MUI:N/MC:X/MA:L", 55, 44, 41),
    ("CVSS:3.0/AV:A/AC:H/PR:H/UI:R/S:C/C:H/I:L/A:L/E:P/RC:U/CR:M/IR:M/AR:X/MAV:P/MPR:L/MS:U", 64, 55, 43),
    ("CVSS:3.1/AV:A/AC:H/PR:L/UI:R/S:C/C:L/I:N/A:N/RL:X/IR:X/AR:X/MAV:X/MPR:X/MUI:N/MS:U", 26, 26, 26),
    ("CVSS:3.0/AV:N/AC:L/PR:H/UI:R/S:C/C:N/I:N/A:L/RL:U/RC:X/CR:X/AR:L/MAV:A/MAC:X/MPR:H/MA:H", 34, 34, 34),
    ("CVSS:3.0/AV:L/AC:H/PR:L/UI:R/S:U/C:L/I:N/A:H/RL:W/CR:H/IR:M/MAV:N/MUI:R/MS:X/MC:H/MI:L", 50, 49, 69),
    ("CVSS:3.0/AV:N/AC:L/PR:N/UI:R/S:C/C:N/I:L/A:N/RL:T/CR:X/IR:X/AR:L/MUI:R/MS:C/MA:H", 46, 44, 61),
    ("CVSS:3.1/AV:P/AC:H/PR:L/UI:R/S:C/C:L/I:L/A:N/E:F/RC:R/AR:X/MAV:L/MS:U", 33, 31, 31),
    ("CVSS:3.0/AV:N/AC:H/PR:L/UI:R/S:C/C:L/I:N/A:H/CR:X/IR:X/MAV:X/MPR:L/MC:H", 65, 65, 76),
    ("CVSS:3.0/AV:A/AC:L/PR:H/UI:R/S:U/C:H/I:N/A:H/E:H/RL:U/RC:X/IR:H/AR:H/MAV:P/MAC:H/MPR:X/MUI:R/MC:X/MA:X", 58, 58, 60),
    ("CVSS:3.0/AV:A/AC:H/PR:N/UI:R/S:U/C:L/I:L/A:N/AR:H/MAV:P/MUI:R/MS:C/MI:H/MA:H", 37, 37, 69),
    ("CVSS:3.1/AV:N/AC:H/PR:H/UI:N/S:U/C:H/I:N/A:H/IR:X/AR:M/MAC:X", 59, 59, 59),
    ("CVSS:3.0/AV:P/AC:L/PR:H/UI:R/S:U/C:H/I:N/A:H/RL:T/IR:H/MAV:A/MAC:X/MC:N", 54, 52, 41),
    ("CVSS:3.1/AV:P/AC:H/PR:L/UI:N/S:U/C:H/I:H/A:H/RL:U/RC:X/CR:H/AR:L/MUI:N/MI:X/MA:L", 63, 63, 63),
    ("CVSS:3.1/AV:N/AC:H/PR:H/UI:N/S:C/C:N/I:L/A:N/E:H/RL:W/IR:X/MPR:H/MS:C/MC:H/MI:H/MA:L", 30, 29, 77),
    ("CVSS:3.1/AV:A/AC:L/PR:H/UI:N/S:C/C:N/I:L/A:N/E:U/RC:R/MAV:X/MAC:X/MPR:L/MUI:R/MS:C/MC:L/MI:X", 34, 30, 41),
    ("CVSS:3.0/AV:L/AC:L/PR:L/UI:N/S:C/C:N/I:L/A:L/RL:W/CR:L/IR:X/AR:M/MUI:R/MS:C/MA:N", 51, 49, 30),
    ("CVSS:3.1/AV:A/AC:L/PR:L/UI:R/S:U/C:L/I:H/A:H/E:F/RC:R/AR:X/MAC:L/MUI:R/MS:C/MI:X", 70, 65, 76),
    ("CVSS:3.1/AV:N/AC:L/PR:H/UI:R/S:C/C:N/I:L/A:L/E:P/RC:R/CR:X/IR:X/AR:H/MPR:N/MC:H", 47, 42, 81),
    ("CVSS:3.0/AV:N/AC:H/PR:L/UI:N/S:U/C:L/I:N/A:N/E:P/RL:X/IR:H/MAC:H/MPR:L/MUI:N/MS:C/MA:N", 30, 28, 33),
    ("CVSS:3.0/AV:L/AC:H/PR:H/UI:R/S:C/C:L/I:L/A:H/E:P/RL:W/RC:C/AR:X/MAV:A/MS:U/MC:X/MI:H", 64, 58, 53),
    ("CVSS:3.1/AV:L/AC:L/PR:L/UI:R/S:U/C:H/I:N/A:L/E:X/CR:X/IR:M/AR:L/MPR:L/MS:X/MI:H", 56, 56, 67),
    ("CVSS:3.1/AV:A/AC:H/PR:L/UI:N/S:C/C:N/I:N/A:L/RC:C/CR:H/AR:H/MAV:L/MPR:N/MI:L", 30, 30, 52),
    ("CVSS:3.0/AV:A/AC:H/PR:N/UI:R/S:U/C:L/I:N/A:H/E:P/RL:T/AR:H/MAV:A/MAC:L/MS:C/MI:L", 54, 49, 79),
    ("CVSS:3.1/AV:L/AC:L/PR:N/UI:N/S:C/C:H/I:L/A:H/E:U/CR:X/MAC:H/MPR:N/MS:C/MI:L/MA:H", 92, 84, 73),
    ("CVSS:3.1/AV:N/AC:L/PR:N/UI:R/S:C/C:H/I:L/A:N/E:F/RL:T/CR:L/IR:X/MAC:L/MUI:R/MS:X/MC:H", 82, 76, 60),
    ("CVSS:3.1/AV:P/AC:L/PR:L/UI:R/S:C/C:N/I:N/A:N/E:U/RL:O/RC:C/CR:X/IR:L/MAV:L/MAC:X/MUI:N/MC:H", 0, 0, 56),
    ("CVSS:3.0/AV:A/AC:H/PR:L/UI:N/S:C/C:H/I:N/A:N/RC:R/AR:L/MPR:L/MUI:R/MS:C/MC:X/MA:L", 57, 55, 55),
    ("CVSS:3.0/AV:N/AC:L/PR:L/UI:R/S:U/C:L/I:L/A:H/E:X/RC:U/CR:X/MAV:A/MPR:N/MS:C", 68, 63, 73),
    ("CVSS:3.0/AV:L/AC:H/PR:L/UI:R/S:U/C:N/I:N/A:L/RL:U/IR:M/AR:M/MPR:H/MUI:X/MS:X", 22, 22, 17),
    ("CVSS:3.1/AV:N/AC:H/PR:N/UI:N/S:C/C:L/I:N/A:N/IR:L/AR:L/MAV:A/MUI:N/MS:C", 40, 40, 33),
    ("CVSS:3.0/AV:N/AC:H/PR:N/UI:R/S:U/C:H/I:L/A:N/E:H/CR:M/IR:X/MAC:X/MI:X/MA:N", 58, 58, 58),
    ("CVSS:3.0/AV:N/AC:H/PR:L/UI:R/S:U/C:L/I:L/A:N/E:U/RL:X/CR:X/MAC:H/MUI:N", 37, 34, 37),
    ("CVSS:3.1/AV:P/AC:H/PR:L/UI:R/S:C/C:L/I:L/A:N/E:U/RL:X/RC:C/CR:M/IR:L/AR:H/MAV:A/MUI:N/MS:U/MC:X/MI:X", 33, 30, 28),
    ("CVSS:3.0/AV:P/AC:H/PR:L/UI:N/S:C/C:N/I:N/A:N/E:H/RC:C/IR:X/MS:U/MI:L", 0, 0, 18),
    ("CVSS:3.0/AV:N/AC:H/PR:H/UI:N/S:U/C:L/I:H/A:H/RC:X/IR:X/MAV:X/MPR:X/MC:N", 62, 62, 59),
    ("CVSS:3.0/AV:A/AC:L/PR:N/UI:R/S:C/C:L/I:L/A:L/MS:X/MC:X/MI:X/MA:N", 63, 63, 52),
    ("CVSS:3.0/AV:N/AC:L/PR:N/UI:N/S:C/C:N/I:N/A:N/RL:O/CR:H/IR:H/AR:L/MPR:X/MS:C/MC:N/MI:L/MA:X", 0, 0, 63),
    ("CVSS:3.1/AV:P/AC:H/PR:H/UI:R/S:C/C:H/I:N/A:H/CR:L/AR:H/MAV:X/MPR:N/MUI:X/MA:L", 65, 65, 44),
    ("CVSS:3.0/AV:A/AC:L/PR:N/UI:N/S:C/C:N/I:H/A:N/RL:U/RC:C/CR:X/IR:L/AR:X/MAC:X/MPR:X", 74, 74, 51),
    ("CVSS:3.0/AV:N/AC:H/PR:H/UI:N/S:U/C:H/I:L/A:L/E:U/MAC:L/MPR:H/MS:C/MI:X/MA:N", 54, 49, 69),
    ("CVSS:3.0/AV:P/AC:L/PR:N/UI:N/S:U/C:N/I:N/A:N/E:P/CR:M/IR:M/AR:X/MUI:R/MS:X/MC:X", 0, 0, 0),
    ("CVSS:3.0/AV:L/AC:H/PR:N/UI:R/S:C/C:N/I:N/A:H/RL:W/CR:X/IR:H/AR:L/MPR:L/MUI:N/MS:C", 54, 52, 32),
    ("CVSS:3.0/AV:N/AC:H/PR:N/UI:R/S:C/C:N/I:N/A:N/RL:T/RC:U/IR:L/MAV:X/MPR:N/MUI:N/MC:N/MA:H", 0, 0, 59),
    ("CVSS:3.1/AV:N/AC:H/PR:H/UI:N/S:U/C:H/I:H/A:H/AR:X/MAV:N/MPR:L/MUI:N/MS:X/MC:L", 66, 66, 71),
    ("CVSS:3.1/AV:A/AC:L/PR:L/UI:R/S:U/C:L/I:H/A:L/IR:M/AR:M/MAV:N/MAC:L/MPR:N/MUI:R/MS:U/MA:H", 62, 62, 83),
    ("CVSS:3.1/AV:P/AC:L/PR:L/UI:N/S:U/C:L/I:H/A:L/E:P/RL:X/CR:L/IR:M/AR:X/MAV:A/MA:X", 54, 51, 61),
    ("CVSS:3.1/AV:L/AC:L/PR:H/UI:N/S:C/C:N/I:H/A:L/E:H/RL:W/RC:U/CR:L/MPR:X/MA:L", 67, 60, 60),
    ("CVSS:3.0/AV:P/AC:H/PR:L/UI:R/S:U/C:L/I:L/A:N/E:X/CR:X/IR:M/AR:X/MAC:L/MPR:L/MUI:X/MS:C/MC:L", 28, 28, 35),
    ("CVSS:3.1/AV:A/AC:L/PR:H/UI:R/S:C/C:H/I:L/A:N/RL:U/RC:C/IR:L/MAV:L/MPR:H", 64, 64, 59),
    ("CVSS:3.1/AV:L/AC:L/PR:N/UI:N/S:C/C:L/I:H/A:H/E:U/RC:U/CR:L/IR:M/MPR:X/MUI:N/MS:C", 92, 77, 76),
    ("CVSS:3.1/AV:P/AC:L/PR:L/UI:R/S:C/C:N/I:L/A:N/CR:X/IR:H/AR:M/MUI:N/MS:U/MI:H/MA:H", 21, 21, 65),
    ("CVSS:3.0/AV:N/AC:L/PR:H/UI:R/S:C/C:N/I:L/A:H/RL:W/CR:X/IR:L/AR:X/MPR:H/MI:N/MA:L", 69, 67, 33),
    ("CVSS:3.1/AV:L/AC:H/PR:N/UI:N/S:C/C:L/I:N/A:H/E:H/RL:X/RC:R/AR:H/MAC:X/MPR:L/MC:H/MA:X", 66, 63, 76),
    ("CVSS:3.1/AV:P/AC:L/PR:L/UI:N/S:C/C:L/I:H/A:L/E:H/AR:H/MAC:H", 65, 65, 64),
    ("CVSS:3.0/AV:P/AC:H/PR:H/UI:N/S:U/C:L/I:H/A:H/RC:U/CR:H/IR:L/MAC:L/MPR:L/MI:X", 56, 52, 52),
    ("CVSS:3.1/AV:P/AC:H/PR:N/UI:R/S:U/C:L/I:N/A:H/RL:U/RC:R/IR:X/MAV:X/MAC:L/MUI:N/MI:H", 46, 44, 61),
    ("CVSS:3.1/AV:P/AC:L/PR:N/UI:N/S:U/C:L/I:N/A:L/E:F/CR:X/IR:L/AR:H/MAC:H/MUI:X/MC:X", 34, 33, 35),
    ("CVSS:3.0/AV:N/AC:L/PR:H/UI:N/S:C/C:H/I:L/A:L/E:U/AR:M/MPR:L/MI:N", 82, 75, 77),
    ("CVSS:3.0/AV:P/AC:L/PR:L/UI:N/S:C/C:H/I:L/A:N/E:F/RC:C/IR:H/AR:M/MI:L/MA:N", 59, 57, 61),
    ("CVSS:3.1/AV:L/AC:L/PR:L/UI:R/S:C/C:N/I:N/A:H/RL:W/RC:X/IR:L/AR:L/MPR:X/MS:X/MA:L", 59, 57, 21),
    ("CVSS:3.1/AV:L/AC:H/PR:H/UI:N/S:U/C:H/I:L/A:N/RL:T/CR:X/IR:M/AR:H/MC:N/MI:H", 47, 45, 39),
    ("CVSS:3.1/AV:L/AC:L/PR:H/UI:N/S:U/C:L/I:N/A:H/RC:X/CR:M/AR:M/MAV:P/MS:C/MC:H/MI:X/MA:N", 50, 50, 49),
    ("CVSS:3.0/AV:P/AC:L/PR:N/UI:R/S:C/C:N/I:H/A:L/RC:X/CR:M/IR:M/AR:H/MUI:N/MS:U/MC:X/MI:L", 58, 58, 40),
    ("CVSS:3.0/AV:P/AC:H/PR:N/UI:R/S:U/C:H/I:N/A:L/E:F/CR:H/MI:H", 46, 45, 61),
];

/// Vectors with their base score and their full score in tenths, worked out from
/// the table and the interpolation in exact fractions.
const V4_SAMPLES: [(&str, u8, u8); 120] = [
    ("CVSS:4.0/AV:L/AC:L/AT:P/PR:H/UI:A/VC:H/VI:N/VA:H/SC:N/SI:L/SA:L/IR:L/MAV:N/MAT:P/MPR:H/MVA:N", 55, 55),
    ("CVSS:4.0/AV:P/AC:L/AT:N/PR:H/UI:P/VC:H/VI:L/VA:H/SC:H/SI:L/SA:N/E:X/MAV:A/MUI:N/MVI:L/MVA:N/MSA:H", 84, 84),
    ("CVSS:4.0/AV:P/AC:L/AT:N/PR:N/UI:P/VC:H/VI:H/VA:L/SC:H/SI:N/SA:L/AR:L/MVA:H/MSA:H", 84, 84),
    ("CVSS:4.0/AV:L/AC:H/AT:P/PR:L/UI:A/VC:L/VI:L/VA:H/SC:H/SI:L/SA:L/E:X/AR:M/MPR:L/MUI:A/MSC:H", 47, 47),
    ("CVSS:4.0/AV:P/AC:H/AT:N/PR:H/UI:N/VC:L/VI:H/VA:N/SC:H/SI:N/SA:L/AR:H/MAT:P/MVA:N", 57, 57),
    ("CVSS:4.0/AV:L/AC:L/AT:N/PR:N/UI:N/VC:H/VI:N/VA:L/SC:N/SI:H/SA:L/E:A/IR:L/MAT:N/MPR:H/MVC:L/MSC:L/MSI:H", 60, 60),
    ("CVSS:4.0/AV:L/AC:L/AT:N/PR:L/UI:A/VC:L/VI:H/VA:H/SC:N/SI:L/SA:L/MAC:H/MPR:L", 46, 46),
    ("CVSS:4.0/AV:A/AC:L/AT:N/PR:L/UI:N/VC:H/VI:L/VA:L/SC:H/SI:N/SA:N/E:X/CR:H/MAT:P/MVI:L", 70, 70),
    ("CVSS:4.0/AV:L/AC:H/AT:P/PR:N/UI:N/VC:N/VI:H/VA:N/SC:H/SI:L/SA:N/E:U/CR:H/IR:M/AR:M/MPR:N/MUI:N/MSA:S", 74, 48),
    ("CVSS:4.0/AV:L/AC:H/AT:P/PR:H/UI:N/VC:L/VI:N/VA:L/SC:H/SI:L/SA:H/IR:M/MUI:P/MVI:N/MVA:N", 23, 23),
    ("CVSS:4.0/AV:L/AC:L/AT:N/PR:L/UI:N/VC:N/VI:N/VA:L/SC:N/SI:L/SA:L/E:X/CR:L/IR:H/AR:M/MAC:H/MSI:L", 20, 20),
    ("CVSS:4.0/AV:L/AC:H/AT:N/PR:H/UI:N/VC:L/VI:N/VA:N/SC:H/SI:H/SA:H/CR:M/AR:L/MAV:P/MVC:N/MSI:S/MSA:H", 51, 51),
    ("CVSS:4.0/AV:A/AC:H/AT:P/PR:L/UI:P/VC:L/VI:H/VA:H/SC:H/SI:L/SA:L/E:P/CR:M/IR:H/MUI:P/MVA:L/MSC:H/MSI:N/MSA:N", 56, 37),
    ("CVSS:4.0/AV:N/AC:H/AT:N/PR:L/UI:N/VC:N/VI:N/VA:N/SC:L/SI:L/SA:H/E:P/MAV:L/MPR:N", 51, 23),
    ("CVSS:4.0/AV:A/AC:H/AT:N/PR:L/UI:A/VC:N/VI:N/VA:N/SC:H/SI:H/SA:N/E:A/IR:M/AR:L/MAC:L", 44, 44),
    ("CVSS:4.0/AV:L/AC:L/AT:N/PR:H/UI:N/VC:H/VI:H/VA:H/SC:L/SI:L/SA:H/E:X/CR:M/IR:M/MVI:H", 92, 92),
    ("CVSS:4.0/AV:P/AC:H/AT:N/PR:N/UI:P/VC:H/VI:L/VA:H/SC:H/SI:H/SA:N/E:P/CR:M/IR:H/AR:H/MAT:N/MVI:N/MSI:S", 71, 55),
    ("CVSS:4.0/AV:P/AC:H/AT:N/PR:L/UI:A/VC:N/VI:N/VA:L/SC:L/SI:L/SA:H/IR:L/MSI:S/MSA:S", 51, 51),
    ("CVSS:4.0/AV:P/AC:H/AT:P/PR:L/UI:A/VC:L/VI:H/VA:N/SC:N/SI:N/SA:N/E:P/MVC:H", 53, 42),
    ("CVSS:4.0/AV:L/AC:L/AT:P/PR:H/UI:A/VC:N/VI:N/VA:N/SC:H/SI:L/SA:L/MVC:H/MVA:L/MSC:N/MSA:S", 70, 70),
    ("CVSS:4.0/AV:P/AC:L/AT:N/PR:N/UI:P/VC:L/VI:N/VA:N/SC:N/SI:H/SA:H/CR:L/MVC:H/MVI:H/MSA:H", 83, 83),
    ("CVSS:4.0/AV:L/AC:H/AT:P/PR:L/UI:A/VC:L/VI:L/VA:H/SC:H/SI:H/SA:N/E:A/AR:M/MAT:N/MVA:L/MSC:N", 18, 18),
    ("CVSS:4.0/AV:L/AC:H/AT:P/PR:H/UI:P/VC:N/VI:L/VA:H/SC:N/SI:H/SA:N/IR:H/MAV:N/MUI:A", 68, 68),
    ("CVSS:4.0/AV:A/AC:L/AT:P/PR:L/UI:P/VC:N/VI:N/VA:N/SC:H/SI:H/SA:N/E:P/IR:L/MUI:A", 21, 10),
    ("CVSS:4.0/AV:N/AC:L/AT:P/PR:H/UI:A/VC:H/VI:H/VA:N/SC:N/SI:N/SA:H/E:P/MVC:N/MVA:N/MSC:L/MSA:H", 68, 55),
    ("CVSS:4.0/AV:L/AC:H/AT:N/PR:N/UI:N/VC:L/VI:L/VA:L/SC:L/SI:H/SA:N/E:P/IR:M/AR:H/MPR:H/MVA:L", 43, 20),
    ("CVSS:4.0/AV:P/AC:L/AT:P/PR:H/UI:A/VC:N/VI:N/VA:L/SC:L/SI:H/SA:N/E:P/CR:L/IR:L/MAC:H/MAT:P/MVA:L/MSC:H/MSA:S", 51, 23),
    ("CVSS:4.0/AV:A/AC:H/AT:P/PR:L/UI:A/VC:H/VI:H/VA:N/SC:L/SI:N/SA:H/E:A/IR:H/AR:M/MAC:L/MVI:L/MSA:N", 41, 41),
    ("CVSS:4.0/AV:N/AC:L/AT:N/PR:N/UI:N/VC:L/VI:N/VA:H/SC:L/SI:H/SA:H/AR:L/MAV:N/MPR:N/MUI:N/MSC:L", 91, 91),
    ("CVSS:4.0/AV:L/AC:L/AT:P/PR:L/UI:P/VC:L/VI:H/VA:N/SC:L/SI:L/SA:L/CR:H/IR:L/MPR:L/MUI:N/MVI:H/MSA:L", 44, 44),
    ("CVSS:4.0/AV:P/AC:L/AT:P/PR:H/UI:A/VC:L/VI:H/VA:L/SC:N/SI:H/SA:H/E:A/AR:L/MAV:L/MAC:L/MPR:N/MVC:N/MSC:L", 69, 69),
    ("CVSS:4.0/AV:A/AC:H/AT:N/PR:N/UI:N/VC:L/VI:N/VA:H/SC:L/SI:N/SA:N/E:X/CR:L/AR:H/MAC:L/MAT:N/MUI:N/MVC:L/MVA:N/MSI:N/MSA:L", 53, 53),
    ("CVSS:4.0/AV:A/AC:L/AT:P/PR:L/UI:N/VC:L/VI:L/VA:H/SC:L/SI:H/SA:N/CR:M/MAT:N", 83, 83),
    ("CVSS:4.0/AV:P/AC:L/AT:P/PR:L/UI:A/VC:L/VI:N/VA:H/SC:L/SI:H/SA:N/CR:L/MAV:P/MAC:L/MAT:P/MVC:L/MSC:N", 55, 55),
    ("CVSS:4.0/AV:A/AC:L/AT:P/PR:N/UI:N/VC:N/VI:H/VA:L/SC:N/SI:N/SA:H/E:X/CR:H/IR:M/AR:M/MAC:L/MSA:S", 74, 74),
    ("CVSS:4.0/AV:A/AC:L/AT:P/PR:L/UI:N/VC:N/VI:N/VA:N/SC:L/SI:N/SA:N/E:A/CR:L/IR:H/AR:M/MAV:P/MPR:L/MSC:L/MSI:S", 43, 43),
    ("CVSS:4.0/AV:N/AC:H/AT:P/PR:H/UI:P/VC:N/VI:H/VA:N/SC:N/SI:N/SA:L/MAT:P/MUI:A/MVA:H/MSA:L", 57, 57),
    ("CVSS:4.0/AV:N/AC:H/AT:N/PR:H/UI:N/VC:H/VI:L/VA:N/SC:H/SI:N/SA:N/AR:M/MAT:N/MPR:H/MSC:N/MSA:S", 84, 84),
    ("CVSS:4.0/AV:N/AC:H/AT:N/PR:H/UI:P/VC:N/VI:N/VA:N/SC:H/SI:H/SA:L/E:X/MPR:H/MUI:P/MVC:L/MSA:S", 67, 67),
    ("CVSS:4.0/AV:L/AC:L/AT:P/PR:N/UI:A/VC:L/VI:N/VA:H/SC:N/SI:N/SA:L/AR:M/MAV:P/MAT:N/MVI:L/MSI:S", 72, 72),
    ("CVSS:4.0/AV:A/AC:H/AT:P/PR:H/UI:N/VC:N/VI:H/VA:H/SC:L/SI:N/SA:N/IR:L/MSC:L/MSI:N", 57, 57),
    ("CVSS:4.0/AV:A/AC:L/AT:N/PR:N/UI:P/VC:H/VI:N/VA:L/SC:N/SI:L/SA:N/E:U/IR:L/MAV:P/MPR:N/MUI:A/MVA:L/MSC:H", 67, 36),
    ("CVSS:4.0/AV:L/AC:H/AT:N/PR:N/UI:A/VC:L/VI:L/VA:N/SC:L/SI:N/SA:H/CR:L/AR:L/MPR:H/MVC:H/MSA:S", 54, 54),
    ("CVSS:4.0/AV:L/AC:H/AT:P/PR:H/UI:P/VC:N/VI:H/VA:N/SC:H/SI:L/SA:N/AR:L/MPR:L/MUI:P/MVI:H/MSA:S", 69, 69),
    ("CVSS:4.0/AV:L/AC:H/AT:N/PR:N/UI:A/VC:L/VI:H/VA:N/SC:H/SI:L/SA:L/CR:M/IR:M/AR:H/MUI:P/MSC:N/MSI:H", 57, 57),
    ("CVSS:4.0/AV:P/AC:H/AT:N/PR:L/UI:P/VC:N/VI:L/VA:N/SC:N/SI:L/SA:L/E:A/IR:H/MAC:L/MAT:N/MPR:N/MUI:N", 24, 24),
    ("CVSS:4.0/AV:A/AC:L/AT:N/PR:N/UI:A/VC:N/VI:H/VA:L/SC:L/SI:N/SA:L/E:U/IR:L/MAT:P/MVC:H/MVA:L/MSC:L", 72, 39),
    ("CVSS:4.0/AV:L/AC:L/AT:N/PR:H/UI:A/VC:N/VI:N/VA:H/SC:L/SI:L/SA:N/E:P/MAV:P/MAC:L/MPR:H/MVA:N/MSA:N", 24, 9),
    ("CVSS:4.0/AV:L/AC:L/AT:P/PR:N/UI:A/VC:H/VI:L/VA:H/SC:N/SI:N/SA:H/E:A/CR:H/MAV:L/MAC:H/MUI:N/MVC:N/MSC:H", 71, 71),
    ("CVSS:4.0/AV:L/AC:L/AT:N/PR:H/UI:N/VC:H/VI:N/VA:L/SC:L/SI:H/SA:H/E:A/CR:M", 72, 72),
    ("CVSS:4.0/AV:A/AC:H/AT:N/PR:H/UI:A/VC:L/VI:H/VA:H/SC:H/SI:L/SA:L/IR:H/AR:M/MAT:P/MSC:H/MSA:S", 73, 73),
    ("CVSS:4.0/AV:P/AC:L/AT:N/PR:N/UI:P/VC:N/VI:L/VA:L/SC:H/SI:H/SA:N/AR:M/MVC:H/MVI:L", 69, 69),
    ("CVSS:4.0/AV:N/AC:H/AT:P/PR:L/UI:A/VC:H/VI:H/VA:N/SC:N/SI:H/SA:N/E:X/IR:H/AR:L/MUI:N/MSA:S", 94, 94),
    ("CVSS:4.0/AV:A/AC:H/AT:P/PR:L/UI:N/VC:H/VI:H/VA:H/SC:L/SI:H/SA:N/E:X/CR:L/IR:L/AR:H/MAV:N/MVC:L/MSC:N", 70, 70),
    ("CVSS:4.0/AV:L/AC:L/AT:P/PR:H/UI:P/VC:L/VI:N/VA:L/SC:L/SI:L/SA:L/IR:M/AR:L/MAT:P/MVC:L", 10, 10),
    ("CVSS:4.0/AV:P/AC:L/AT:P/PR:N/UI:N/VC:L/VI:L/VA:H/SC:H/SI:H/SA:N/IR:L/AR:H/MAV:L/MAC:L/MPR:N/MUI:N/MVA:N/MSI:S/MSA:S", 70, 70),
    ("CVSS:4.0/AV:L/AC:H/AT:P/PR:N/UI:N/VC:H/VI:H/VA:H/SC:L/SI:H/SA:N/E:X/CR:H/AR:H/MAT:P/MPR:H/MUI:N/MVC:H/MVI:H/MSC:N", 84, 84),
    ("CVSS:4.0/AV:P/AC:L/AT:P/PR:H/UI:N/VC:N/VI:H/VA:L/SC:N/SI:H/SA:N/E:A/CR:L/IR:L/AR:L/MAV:A/MAT:N/MVA:N/MSA:H", 71, 71),
    ("CVSS:4.0/AV:P/AC:H/AT:N/PR:L/UI:A/VC:N/VI:L/VA:H/SC:H/SI:L/SA:L/CR:M/IR:L/AR:L/MAV:L/MAC:L/MUI:N", 71, 71),
    ("CVSS:4.0/AV:P/AC:L/AT:N/PR:H/UI:A/VC:H/VI:H/VA:N/SC:N/SI:L/SA:N/E:U/MUI:P/MVC:N/MVA:N/MSI:N", 51, 17),
    ("CVSS:4.0/AV:P/AC:H/AT:P/PR:L/UI:N/VC:N/VI:H/VA:L/SC:N/SI:L/SA:L/E:P/CR:H/IR:M/MUI:P/MSC:N/MSI:N", 18, 7),
    ("CVSS:4.0/AV:N/AC:L/AT:N/PR:N/UI:P/VC:L/VI:H/VA:H/SC:H/SI:L/SA:L/E:A/CR:M/IR:H/AR:H/MAC:L/MAT:N", 85, 85),
    ("CVSS:4.0/AV:P/AC:L/AT:N/PR:L/UI:P/VC:H/VI:N/VA:H/SC:N/SI:L/SA:N/E:U/IR:L/MAC:H/MVC:H/MVI:L/MVA:H/MSI:H", 56, 14),
    ("CVSS:4.0/AV:A/AC:H/AT:P/PR:H/UI:P/VC:L/VI:L/VA:L/SC:H/SI:N/SA:N/E:X/CR:M/IR:M/MAC:L/MUI:A", 18, 18),
    ("CVSS:4.0/AV:N/AC:L/AT:P/PR:N/UI:A/VC:H/VI:L/VA:H/SC:L/SI:L/SA:L/MPR:N/MUI:P", 61, 61),
    ("CVSS:4.0/AV:A/AC:L/AT:P/PR:H/UI:N/VC:N/VI:N/VA:N/SC:L/SI:H/SA:N/CR:L/MAT:P/MPR:L/MSC:N", 46, 46),
    ("CVSS:4.0/AV:A/AC:L/AT:P/PR:L/UI:A/VC:H/VI:H/VA:N/SC:L/SI:H/SA:N/E:X/IR:M/AR:L/MVI:H/MVA:H/MSA:H", 70, 70),
    ("CVSS:4.0/AV:P/AC:L/AT:N/PR:H/UI:A/VC:L/VI:H/VA:L/SC:N/SI:H/SA:L/AR:M/MVA:N", 68, 68),
    ("CVSS:4.0/AV:P/AC:H/AT:N/PR:N/UI:A/VC:L/VI:H/VA:N/SC:H/SI:L/SA:L/MAC:L/MAT:N", 69, 69),
    ("CVSS:4.0/AV:L/AC:L/AT:N/PR:H/UI:N/VC:L/VI:L/VA:N/SC:H/SI:H/SA:L/E:P/IR:L/AR:H/MAC:L/MAT:P/MPR:L/MVC:L/MVA:N", 50, 23),
    ("CVSS:4.0/AV:P/AC:L/AT:N/PR:L/UI:A/VC:L/VI:H/VA:H/SC:N/SI:N/SA:L/MVC:H/MVI:H/MSI:S", 92, 92),
    ("CVSS:4.0/AV:L/AC:H/AT:P/PR:N/UI:P/VC:N/VI:L/VA:L/SC:N/SI:L/SA:H/IR:M/AR:H/MAV:N/MAC:H/MAT:N/MUI:N/MSI:N", 69, 69),
    ("CVSS:4.0/AV:L/AC:H/AT:P/PR:H/UI:A/VC:N/VI:N/VA:N/SC:H/SI:H/SA:H/E:X/MAV:N/MPR:H/MVC:H/MVI:L/MVA:L", 71, 71),
    ("CVSS:4.0/AV:N/AC:L/AT:N/PR:H/UI:P/VC:L/VI:L/VA:N/SC:N/SI:H/SA:N/E:X/IR:M/MAC:L/MSI:L", 48, 48),
    ("CVSS:4.0/AV:N/AC:H/AT:N/PR:H/UI:P/VC:N/VI:N/VA:N/SC:L/SI:L/SA:L/MAC:H/MUI:A/MSI:S", 64, 64),
    ("CVSS:4.0/AV:N/AC:L/AT:N/PR:H/UI:P/VC:N/VI:N/VA:H/SC:L/SI:L/SA:H/CR:L/IR:H/MAV:N/MAC:L/MAT:N/MPR:N/MSA:H", 84, 84),
    ("CVSS:4.0/AV:N/AC:L/AT:N/PR:N/UI:N/VC:L/VI:N/VA:L/SC:L/SI:N/SA:N/E:A/CR:M/IR:H/MAC:L/MAT:N/MVA:L/MSC:N/MSI:L", 69, 69),
    ("CVSS:4.0/AV:A/AC:H/AT:N/PR:N/UI:N/VC:H/VI:L/VA:L/SC:H/SI:L/SA:N/E:X/CR:L/MAV:A/MPR:L/MUI:A/MSC:H/MSI:S/MSA:N", 54, 54),
    ("CVSS:4.0/AV:A/AC:H/AT:N/PR:N/UI:A/VC:N/VI:N/VA:N/SC:H/SI:H/SA:N/IR:M/MUI:N/MVI:N/MVA:N/MSI:L", 51, 51),
    ("CVSS:4.0/AV:P/AC:L/AT:N/PR:L/UI:A/VC:L/VI:H/VA:L/SC:H/SI:L/SA:N/E:U/CR:H/MPR:L/MUI:P/MVC:L/MSI:L", 69, 39),
    ("CVSS:4.0/AV:L/AC:H/AT:P/PR:L/UI:N/VC:N/VI:L/VA:L/SC:N/SI:H/SA:H/E:A/AR:H/MAT:N/MPR:H", 45, 45),
    ("CVSS:4.0/AV:A/AC:L/AT:N/PR:N/UI:A/VC:N/VI:N/VA:H/SC:H/SI:H/SA:L/E:P/IR:H/AR:L/MAC:L/MUI:A/MSC:H/MSI:N/MSA:L", 71, 56),
    ("CVSS:4.0/AV:L/AC:H/AT:N/PR:H/UI:P/VC:L/VI:L/VA:N/SC:N/SI:N/SA:N/CR:M/AR:M/MSI:N", 10, 10),
    ("CVSS:4.0/AV:A/AC:L/AT:P/PR:L/UI:P/VC:N/VI:N/VA:L/SC:L/SI:N/SA:N/E:U/MAC:L/MVI:N/MSC:L", 10, 1),
    ("CVSS:4.0/AV:N/AC:H/AT:P/PR:N/UI:P/VC:H/VI:N/VA:L/SC:H/SI:H/SA:H/AR:L/MAC:L/MAT:N/MPR:N/MVC:H", 85, 85),
    ("CVSS:4.0/AV:L/AC:L/AT:P/PR:H/UI:N/VC:N/VI:L/VA:L/SC:N/SI:L/SA:N/E:X/IR:L/MAT:P/MVA:L/MSA:S", 64, 64),
    ("CVSS:4.0/AV:A/AC:L/AT:P/PR:H/UI:P/VC:N/VI:L/VA:N/SC:L/SI:L/SA:L/IR:H/AR:L/MVC:H/MVI:H/MSI:N", 52, 52),
    ("CVSS:4.0/AV:L/AC:L/AT:N/PR:L/UI:N/VC:H/VI:L/VA:H/SC:N/SI:N/SA:H/E:X/CR:M/AR:M/MAV:A/MAC:H/MPR:H/MUI:A/MSI:N", 42, 42),
    ("CVSS:4.0/AV:L/AC:L/AT:P/PR:N/UI:A/VC:L/VI:H/VA:N/SC:N/SI:N/SA:L/CR:L/MVC:H/MSA:S", 92, 92),
    ("CVSS:4.0/AV:P/AC:H/AT:N/PR:N/UI:P/VC:L/VI:L/VA:H/SC:L/SI:H/SA:L/E:U/AR:H/MAV:N/MPR:N/MVC:N/MVA:N", 53, 13),
    ("CVSS:4.0/AV:N/AC:L/AT:P/PR:L/UI:N/VC:H/VI:N/VA:N/SC:H/SI:L/SA:L/E:X/CR:M/MAC:L/MPR:N/MSA:S", 92, 92),
    ("CVSS:4.0/AV:N/AC:H/AT:P/PR:H/UI:P/VC:L/VI:L/VA:H/SC:H/SI:H/SA:H/MSC:L/MSI:H/MSA:L", 71, 71),
    ("CVSS:4.0/AV:L/AC:H/AT:N/PR:N/UI:A/VC:N/VI:N/VA:N/SC:L/SI:L/SA:H/CR:M/AR:L/MAV:A/MAT:P/MVC:H", 57, 57),
    ("CVSS:4.0/AV:A/AC:H/AT:P/PR:N/UI:A/VC:H/VI:H/VA:L/SC:H/SI:H/SA:H/E:A/IR:H", 87, 87),
    ("CVSS:4.0/AV:N/AC:L/AT:P/PR:H/UI:N/VC:H/VI:H/VA:L/SC:N/SI:L/SA:L/MAV:N/MUI:P/MVI:H/MSC:H/MSI:N/MSA:S", 93, 93),
    ("CVSS:4.0/AV:N/AC:H/AT:P/PR:L/UI:A/VC:L/VI:L/VA:H/SC:L/SI:N/SA:H/E:X/CR:L/AR:H/MAV:P/MPR:N", 57, 57),
    ("CVSS:4.0/AV:N/AC:H/AT:N/PR:H/UI:N/VC:N/VI:L/VA:H/SC:L/SI:L/SA:H/E:X/AR:L/MAV:A/MAC:L", 72, 72),
    ("CVSS:4.0/AV:P/AC:L/AT:N/PR:N/UI:P/VC:N/VI:H/VA:L/SC:L/SI:H/SA:L/E:P/MAT:N/MSA:L", 69, 52),
    ("CVSS:4.0/AV:N/AC:L/AT:P/PR:L/UI:A/VC:L/VI:L/VA:H/SC:N/SI:H/SA:N/E:X/CR:L/AR:H/MPR:H/MSI:N/MSA:L", 56, 56),
    ("CVSS:4.0/AV:L/AC:H/AT:N/PR:L/UI:N/VC:N/VI:N/VA:N/SC:H/SI:N/SA:L/E:A/IR:L/AR:L/MVC:H/MSC:H/MSI:N", 67, 67),
    ("CVSS:4.0/AV:P/AC:L/AT:N/PR:H/UI:P/VC:N/VI:H/VA:L/SC:L/SI:N/SA:N/E:A/CR:L/IR:L/AR:L", 33, 33),
    ("CVSS:4.0/AV:A/AC:L/AT:P/PR:N/UI:P/VC:H/VI:N/VA:L/SC:H/SI:L/SA:L/AR:L/MAC:H/MAT:P/MVC:N/MVI:H/MSC:H/MSI:H", 71, 71),
    ("CVSS:4.0/AV:A/AC:L/AT:P/PR:H/UI:P/VC:H/VI:H/VA:N/SC:L/SI:L/SA:L/E:A/IR:L/MAV:A/MUI:P", 52, 52),
    ("CVSS:4.0/AV:A/AC:L/AT:P/PR:L/UI:P/VC:N/VI:L/VA:N/SC:L/SI:N/SA:L/CR:L/IR:M/AR:L/MAV:L/MAT:N/MVC:N/MSI:N", 24, 24),
    ("CVSS:4.0/AV:N/AC:L/AT:P/PR:N/UI:P/VC:N/VI:L/VA:L/SC:N/SI:L/SA:H/MAC:H/MVI:N", 51, 51),
    ("CVSS:4.0/AV:N/AC:L/AT:P/PR:L/UI:P/VC:H/VI:L/VA:H/SC:N/SI:N/SA:L/CR:H/AR:L/MAC:H/MAT:P/MUI:N/MVC:H/MSI:H", 71, 71),
    ("CVSS:4.0/AV:P/AC:H/AT:P/PR:L/UI:A/VC:H/VI:H/VA:H/SC:L/SI:L/SA:L/E:U/AR:L/MAC:H/MUI:P/MVI:H", 53, 17),
    ("CVSS:4.0/AV:N/AC:L/AT:P/PR:N/UI:N/VC:L/VI:N/VA:N/SC:H/SI:L/SA:L/E:P/AR:M/MAV:L/MAC:L/MAT:N/MVI:N/MVA:N/MSA:L", 63, 52),
    ("CVSS:4.0/AV:P/AC:L/AT:P/PR:N/UI:N/VC:H/VI:L/VA:H/SC:N/SI:H/SA:H/CR:L/AR:H/MAC:L/MSI:N", 56, 56),
    ("CVSS:4.0/AV:A/AC:H/AT:N/PR:H/UI:N/VC:H/VI:H/VA:N/SC:H/SI:N/SA:H/E:U/AR:L/MPR:L", 86, 57),
    ("CVSS:4.0/AV:P/AC:H/AT:N/PR:N/UI:A/VC:H/VI:H/VA:N/SC:H/SI:L/SA:H/CR:L/MAC:L/MVI:N/MVA:L/MSC:L/MSI:H", 55, 55),
    ("CVSS:4.0/AV:A/AC:H/AT:N/PR:L/UI:N/VC:H/VI:L/VA:L/SC:L/SI:L/SA:H/CR:L/MPR:H/MVC:N/MVI:N", 48, 48),
    ("CVSS:4.0/AV:P/AC:L/AT:P/PR:H/UI:N/VC:N/VI:H/VA:N/SC:N/SI:H/SA:L/E:P/CR:H/IR:H/MAV:N/MUI:P/MSC:L", 70, 56),
    ("CVSS:4.0/AV:A/AC:L/AT:N/PR:H/UI:A/VC:L/VI:H/VA:L/SC:L/SI:N/SA:N/MAV:N/MAT:P/MVA:H/MSC:H/MSI:S", 85, 85),
    ("CVSS:4.0/AV:L/AC:L/AT:N/PR:N/UI:A/VC:L/VI:L/VA:H/SC:N/SI:H/SA:L/CR:L/IR:M/AR:M/MVA:H/MSC:N", 70, 70),
    ("CVSS:4.0/AV:A/AC:L/AT:P/PR:N/UI:A/VC:L/VI:L/VA:N/SC:L/SI:H/SA:N/E:X/CR:M/IR:H/AR:L/MAV:A/MAT:N/MVA:N/MSA:N", 61, 61),
    ("CVSS:4.0/AV:A/AC:H/AT:P/PR:H/UI:N/VC:H/VI:L/VA:H/SC:L/SI:H/SA:N/E:P/MAV:L/MAT:N/MPR:L/MSC:L", 70, 56),
    ("CVSS:4.0/AV:P/AC:L/AT:N/PR:L/UI:A/VC:H/VI:H/VA:H/SC:N/SI:H/SA:L/E:P/CR:H/IR:L/AR:M/MAC:L/MPR:H/MSC:N", 82, 69),
    ("CVSS:4.0/AV:N/AC:H/AT:P/PR:N/UI:P/VC:H/VI:H/VA:H/SC:N/SI:L/SA:N/E:A/CR:L/IR:H/AR:L/MAC:H/MAT:P/MUI:P/MVI:N", 48, 48),
    ("CVSS:4.0/AV:N/AC:L/AT:P/PR:L/UI:N/VC:L/VI:L/VA:L/SC:H/SI:L/SA:H/CR:M/IR:H/MUI:P/MVA:N/MSI:S/MSA:S", 70, 70),
];

#[test]
fn test_v2_sample_scores() {
    for (vector, base, temporal, environmental) in V2_SAMPLES {
        let cvss = CvssV2::parse(vector).unwrap();
        assert_eq!(cvss.calculated_base_score().unwrap().tenths(), base, "base of {}", vector);
        assert_eq!(
            cvss.calculated_temporal_score().unwrap().tenths(),
            temporal,
            "temporal of {}",
            vector
        );
        assert_eq!(
            cvss.calculated_environmental_score().unwrap().tenths(),
            environmental,
            "environmental of {}",
            vector
        );
    }
}

#[test]
fn test_v3_sample_scores() {
    for (vector, base, temporal, environmental) in V3_SAMPLES {
        let cvss = CvssV3::parse(vector).unwrap();
        assert_eq!(cvss.calculated_base_score().unwrap().tenths(), base, "base of {}", vector);
        assert_eq!(
            cvss.calculated_temporal_score().unwrap().tenths(),
            temporal,
            "temporal of {}",
            vector
        );
        assert_eq!(
            cvss.calculated_environmental_score().unwrap().tenths(),
            environmental,
            "environmental of {}",
            vector
        );
    }
}

#[test]
fn test_v4_sample_scores() {
    for (vector, base, full) in V4_SAMPLES {
        let cvss = CvssV4::parse(vector).unwrap();
        assert_eq!(cvss.calculated_base_score().unwrap().tenths(), base, "base of {}", vector);
        assert_eq!(cvss.calculated_score().unwrap().tenths(), full, "full of {}", vector);
    }
}

#[test]
fn test_sample_scores_are_on_the_scale() {
    for (_, base, temporal, environmental) in V2_SAMPLES {
        assert!(base <= 100 && temporal <= 100 && environmental <= 100);
    }
    for (vector, _, _, _) in V3_SAMPLES {
        let cvss = CvssV3::parse(vector).unwrap();
        assert!(cvss.calculated_base_score().unwrap().tenths() <= 100);
        assert!(cvss.calculated_temporal_score().unwrap().tenths() <= 100);
        assert!(cvss.calculated_environmental_score().unwrap().tenths() <= 100);
    }
    for (vector, _, _) in V4_SAMPLES {
        let cvss = CvssV4::parse(vector).unwrap();
        assert!(cvss.calculated_base_score().unwrap().tenths() <= 100);
        assert!(cvss.calculated_score().unwrap().tenths() <= 100);
    }
}

#[test]
fn test_sample_vectors_render_and_parse_back() {
    for (vector, _, _, _) in V2_SAMPLES {
        let cvss = CvssV2::parse(vector).unwrap();
        let again = CvssV2::parse(&cvss.to_string()).unwrap();
        assert_eq!(again.metrics(), cvss.metrics(), "{}", vector);
        assert_eq!(cvss.to_string(), vector);
    }
    for (vector, _, _, _) in V3_SAMPLES {
        let cvss = CvssV3::parse(vector).unwrap();
        let again = CvssV3::parse(&cvss.to_string()).unwrap();
        assert_eq!(again.metrics(), cvss.metrics(), "{}", vector);
        assert_eq!(cvss.to_string(), vector);
    }
    for (vector, _, _) in V4_SAMPLES {
        let cvss = CvssV4::parse(vector).unwrap();
        let again = CvssV4::parse(&cvss.to_string()).unwrap();
        assert_eq!(again.metrics(), cvss.metrics(), "{}", vector);
        assert_eq!(cvss.to_string(), vector);
    }
}

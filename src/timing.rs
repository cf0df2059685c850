//! The documented size, branch target and machine-cycle count of every instruction.
use vstd::prelude::*;

use crate::semantics::{cc_holds, op_x, op_y, op_z};
use crate::state::{add16, sext8, CpuState};

verus! {

/// The number of bytes of the instruction with opcode `op` (a CB-prefixed one counts its
/// suffix).
pub open spec fn instr_length(op: u8) -> int {
    let x = op_x(op);
    let y = op_y(op);
    let z = op_z(op);
    if x == 0 {
        if z == 0 {
            if y == 1 {
                3
            } else if y >= 3 {
                2
            } else {
                1
            }
        } else if z == 1 {
            if y % 2 == 0 {
                3
            } else {
                1
            }
        } else if z == 6 {
            2
        } else {
            1
        }
    } else if x == 3 {
        if z == 0 {
            if y >= 4 {
                2
            } else {
                1
            }
        } else if z == 2 {
            if y == 4 || y == 6 {
                1
            } else {
                3
            }
        } else if z == 3 {
            if y == 0 {
                3
            } else if y == 1 {
                2
            } else {
                1
            }
        } else if z == 4 {
            3
        } else if z == 5 {
            if y % 2 == 0 {
                1
            } else {
                3
            }
        } else if z == 6 {
            2
        } else {
            1
        }
    } else {
        1
    }
}

/// Where the instruction at PC sends PC when it transfers control; `None` when PC just
/// moves past it.
pub open spec fn jump_target(s: CpuState) -> Option<u16> {
    let op = s.opcode();
    let x = op_x(op);
    let y = op_y(op);
    let z = op_z(op);
    if op == 0xC3 || op == 0xCD || (x == 3 && (z == 2 || z == 4) && y < 4 && cc_holds(s)) {
        Some(s.imm16())
    } else if op == 0xE9 {
        Some(s.reg.hl_spec())
    } else if op == 0x18 || (x == 0 && z == 0 && y >= 4 && cc_holds(s)) {
        Some(add16(s.reg.pc, 2 + sext8(s.imm8())))
    } else if op == 0xC9 || op == 0xD9 || (x == 3 && z == 0 && y < 4 && cc_holds(s)) {
        Some(s.top16())
    } else if x == 3 && z == 7 {
        Some((8 * y) as u16)
    } else {
        None
    }
}

/// Machine cycles of a CB-prefixed instruction with suffix `cb`.
pub open spec fn cb_cycles(cb: u8) -> int {
    if op_z(cb) != 6 {
        2
    } else if op_x(cb) == 1 {
        3
    } else {
        4
    }
}

/// The machine cycles of the instruction at PC; a conditional branch counts more when
/// taken.
pub open spec fn machine_cycles(s: CpuState) -> int {
    let op = s.opcode();
    let x = op_x(op);
    let y = op_y(op);
    let z = op_z(op);
    let taken = cc_holds(s);
    if x == 0 {
        if z == 0 {
            if y == 1 {
                5
            } else if y == 3 {
                3
            } else if y >= 4 {
                if taken {
                    3
                } else {
                    2
                }
            } else {
                1
            }
        } else if z == 1 {
            if y % 2 == 0 {
                3
            } else {
                2
            }
        } else if z == 2 || z == 3 {
            2
        } else if z == 4 || z == 5 {
            if y == 6 {
                3
            } else {
                1
            }
        } else if z == 6 {
            if y == 6 {
                3
            } else {
                2
            }
        } else {
            1
        }
    } else if x == 1 {
        if (y == 6 || z == 6) && op != 0x76 {
            2
        } else {
            1
        }
    } else if x == 2 {
        if z == 6 {
            2
        } else {
            1
        }
    } else {
        if z == 0 {
            if y < 4 {
                if taken {
                    5
                } else {
                    2
                }
            } else if y == 5 {
                4
            } else {
                3
            }
        } else if z == 1 {
            if y % 2 == 0 {
                3
            } else if y == 5 {
                1
            } else if y == 7 {
                2
            } else {
                4
            }
        } else if z == 2 {
            if y < 4 {
                if taken {
                    4
                } else {
                    3
                }
            } else if y == 4 || y == 6 {
                2
            } else {
                4
            }
        } else if z == 3 {
            if y == 0 {
                4
            } else if y == 1 {
                cb_cycles(s.imm8())
            } else {
                1
            }
        } else if z == 4 {
            if taken {
                6
            } else {
                3
            }
        } else if z == 5 {
            if y % 2 == 0 {
                4
            } else {
                6
            }
        } else if z == 6 {
            2
        } else {
            4
        }
    }
}

/// The PC that follows the instruction at PC, by the table.
pub open spec fn next_pc(s: CpuState) -> u16 {
    match jump_target(s) {
        Some(a) => a,
        None => add16(s.reg.pc, instr_length(s.opcode())),
    }
}

} // verus!

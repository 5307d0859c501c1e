use gear_logic::ext::{
    Ext, MessageId, OutgoingPacket, ProgramId, ProgramInitPacket, ReplyPacket, WasmPageNumber,
};
use gear_logic::host_funcs;
use gear_logic::runtime::{MemoryError, MemoryWrap, Runtime};
use wasmi::memory_units::Pages;
use gear_logic::traps::{is_leave_trap, is_wait_trap, EXIT_TRAP_STR, LEAVE_TRAP_STR, WAIT_TRAP_STR};

#[derive(Default)]
struct MockExt {
    memory: Vec<u8>,
    msg: Vec<u8>,
    reply_to: Option<(MessageId, i32)>,
    fail: bool,
    sent: Vec<(Option<usize>, [u8; 32], Vec<u8>, Option<u64>, u128)>,
    replies: Vec<(i32, Vec<u8>, u128)>,
    pushed: Vec<(Option<usize>, Vec<u8>)>,
    created: Vec<([u8; 32], Vec<u8>, Vec<u8>, u64, u128)>,
    debug: Vec<String>,
    gas_charged: Vec<u64>,
    events: Vec<String>,
}

impl MockExt {
    fn new(mem_len: usize) -> Self {
        MockExt { memory: vec![0; mem_len], ..Default::default() }
    }
    fn result<T>(&self, v: T) -> Result<T, &'static str> {
        if self.fail {
            Err("refused")
        } else {
            Ok(v)
        }
    }
}

impl Ext for MockExt {
    fn get_mem(&self, ptr: usize, buffer: &mut [u8]) {
        buffer.copy_from_slice(&self.memory[ptr..ptr + buffer.len()]);
    }
    fn set_mem(&mut self, ptr: usize, val: &[u8]) {
        self.memory[ptr..ptr + val.len()].copy_from_slice(val);
    }
    fn alloc_pages(&mut self, pages: WasmPageNumber) -> Result<WasmPageNumber, &'static str> {
        self.events.push(format!("alloc {}", pages.0));
        self.result(WasmPageNumber(10))
    }
    fn free(&mut self, page: WasmPageNumber) -> Result<(), &'static str> {
        self.events.push(format!("free {}", page.0));
        self.result(())
    }
    fn block_height(&self) -> u32 {
        u32::MAX
    }
    fn block_timestamp(&self) -> u64 {
        1_234
    }
    fn reply_to(&self) -> Option<(MessageId, i32)> {
        self.reply_to
    }
    fn msg(&self) -> &[u8] {
        &self.msg
    }
    fn debug(&mut self, text: &str) -> Result<(), &'static str> {
        self.debug.push(text.to_string());
        Ok(())
    }
    fn charge_gas(&mut self, amount: u64) -> Result<(), &'static str> {
        self.gas_charged.push(amount);
        self.result(())
    }
    fn gas_available(&self) -> u64 {
        u64::MAX
    }
    fn exit(&mut self, value_destination: ProgramId) -> Result<(), &'static str> {
        self.events.push(format!("exit {}", value_destination.0[0]));
        Ok(())
    }
    fn origin(&self) -> ProgramId {
        ProgramId([0x0A; 32])
    }
    fn message_id(&self) -> MessageId {
        MessageId([0x0B; 32])
    }
    fn reply(&mut self, msg: ReplyPacket) -> Result<MessageId, &'static str> {
        self.replies.push((msg.exit_code, msg.payload, msg.value));
        self.result(MessageId([0x0C; 32]))
    }
    fn reply_commit(&mut self, msg: ReplyPacket) -> Result<MessageId, &'static str> {
        self.replies.push((msg.exit_code, msg.payload, msg.value));
        self.result(MessageId([0x0D; 32]))
    }
    fn reply_push(&mut self, buffer: &[u8]) -> Result<(), &'static str> {
        self.pushed.push((None, buffer.to_vec()));
        self.result(())
    }
    fn send(&mut self, msg: OutgoingPacket) -> Result<MessageId, &'static str> {
        self.sent.push((None, msg.destination.0, msg.payload, msg.gas_limit, msg.value));
        self.result(MessageId([0x0E; 32]))
    }
    fn send_commit(&mut self, handle: usize, msg: OutgoingPacket) -> Result<MessageId, &'static str> {
        self.sent.push((Some(handle), msg.destination.0, msg.payload, msg.gas_limit, msg.value));
        self.result(MessageId([0x0F; 32]))
    }
    fn send_init(&mut self) -> Result<usize, &'static str> {
        self.result(0x1_0000_0005)
    }
    fn send_push(&mut self, handle: usize, buffer: &[u8]) -> Result<(), &'static str> {
        self.pushed.push((Some(handle), buffer.to_vec()));
        self.result(())
    }
    fn create_program(&mut self, packet: ProgramInitPacket) -> Result<ProgramId, &'static str> {
        self.created.push((packet.code_hash, packet.salt, packet.payload, packet.gas_limit, packet.value));
        self.result(ProgramId([0x11; 32]))
    }
    fn source(&self) -> ProgramId {
        ProgramId([0x12; 32])
    }
    fn program_id(&self) -> ProgramId {
        ProgramId([0x13; 32])
    }
    fn value(&self) -> u128 {
        0x0102_0304_0506_0708_090A_0B0C_0D0E_0F10
    }
    fn value_available(&self) -> u128 {
        7
    }
    fn leave(&mut self) -> Result<(), &'static str> {
        self.events.push("leave".to_string());
        Ok(())
    }
    fn wait(&mut self) -> Result<(), &'static str> {
        self.events.push("wait".to_string());
        Ok(())
    }
    fn wake(&mut self, waker_id: MessageId) -> Result<(), &'static str> {
        self.events.push(format!("wake {}", waker_id.0[0]));
        if self.fail {
            Err("no such message")
        } else {
            Ok(())
        }
    }
}

#[test]
fn memory_helpers_read_little_endian() {
    let mut ext = MockExt::new(64);
    ext.memory[8..16].copy_from_slice(&0x1122_3344_5566_7788u64.to_le_bytes());
    assert_eq!(host_funcs::get_u64(&ext, 8), 0x1122_3344_5566_7788);
    host_funcs::set_u128(&mut ext, 20, 0xAABB_u128);
    assert_eq!(host_funcs::get_u128(&ext, 20), 0xAABB);
    assert_eq!(&ext.memory[20..22], &[0xBB, 0xAA]);
    assert_eq!(host_funcs::get_vec(&ext, 20, 3), vec![0xBB, 0xAA, 0]);
    let a: [u8; 2] = host_funcs::get_fixed_bytes(&ext, 20);
    assert_eq!(a, [0xBB, 0xAA]);
}

#[test]
fn alloc_free_and_queries() {
    let mut ext = MockExt::new(16);
    assert_eq!(host_funcs::alloc_pages(&mut ext, -1), Ok(10));
    assert_eq!(ext.events, vec!["alloc 4294967295".to_string()]);
    ext.fail = true;
    assert_eq!(host_funcs::alloc_pages(&mut ext, 1), Err("refused"));
    assert_eq!(host_funcs::free(&mut ext, 3), Ok(()));
    assert_eq!(ext.events.last().unwrap(), "free 3");
    assert_eq!(host_funcs::block_height(&ext), -1);
    assert_eq!(host_funcs::block_timestamp(&ext), 1_234);
    assert_eq!(host_funcs::gas_available(&ext), -1);
    ext.msg = vec![1, 2, 3];
    assert_eq!(host_funcs::size(&ext), 3);
}

#[test]
fn exit_code_and_reply_to() {
    let mut ext = MockExt::new(64);
    assert_eq!(host_funcs::exit_code(&ext), Err(host_funcs::NOT_REPLY_CONTEXT));
    assert_eq!(host_funcs::reply_to(&mut ext, 0), Err(host_funcs::NOT_REPLY_CONTEXT));
    ext.reply_to = Some((MessageId([5; 32]), -3));
    assert_eq!(host_funcs::exit_code(&ext), Ok(-3));
    assert_eq!(host_funcs::reply_to(&mut ext, 16), Ok(()));
    assert_eq!(&ext.memory[16..48], &[5u8; 32]);
    assert_eq!(ext.memory[15], 0);
    assert_eq!(ext.memory[48], 0);
}

#[test]
fn debug_text() {
    let mut ext = MockExt::new(16);
    ext.memory[0..2].copy_from_slice(b"hi");
    assert_eq!(host_funcs::debug(&mut ext, 0, 2), Ok(()));
    assert_eq!(ext.debug, vec!["hi".to_string()]);
    ext.memory[4] = 0xFF;
    assert_eq!(host_funcs::debug(&mut ext, 4, 1), Err(host_funcs::DEBUG_PARSE_ERROR));
    assert_eq!(ext.debug.len(), 1);
}

#[test]
fn gas_charging() {
    let mut ext = MockExt::new(16);
    assert_eq!(host_funcs::gas(&mut ext, -2), Ok(()));
    assert_eq!(ext.gas_charged, vec![u64::MAX - 1]);
    ext.fail = true;
    assert_eq!(host_funcs::gas(&mut ext, 5), Err(host_funcs::GAS_ERROR));
}

#[test]
fn traps_break_execution() {
    let mut ext = MockExt::new(64);
    ext.memory[0] = 0x77;
    let e = host_funcs::exit(&mut ext, 0).unwrap_err();
    assert_eq!(e, EXIT_TRAP_STR);
    assert!(!is_wait_trap(e) && !is_leave_trap(e));
    assert_eq!(ext.events, vec!["exit 119".to_string()]);
    let l = host_funcs::leave(&mut ext).unwrap_err();
    assert_eq!(l, LEAVE_TRAP_STR);
    assert!(is_leave_trap(l) && !is_wait_trap(l));
    let w = host_funcs::wait(&mut ext).unwrap_err();
    assert_eq!(w, WAIT_TRAP_STR);
    assert!(is_wait_trap(w) && !is_leave_trap(w));
    ext.memory[32] = 9;
    assert_eq!(host_funcs::wake(&mut ext, 32), Ok(()));
    assert_eq!(ext.events.last().unwrap(), "wake 9");
    ext.fail = true;
    assert_eq!(host_funcs::wake(&mut ext, 32), Err("no such message"));
}

#[test]
fn ids_and_values_are_written() {
    let mut ext = MockExt::new(200);
    host_funcs::origin(&mut ext, 0).unwrap();
    host_funcs::msg_id(&mut ext, 32).unwrap();
    host_funcs::source(&mut ext, 64).unwrap();
    host_funcs::program_id(&mut ext, 96).unwrap();
    host_funcs::value(&mut ext, 128).unwrap();
    host_funcs::value_available(&mut ext, 144).unwrap();
    assert_eq!(&ext.memory[0..32], &[0x0A; 32]);
    assert_eq!(&ext.memory[32..64], &[0x0B; 32]);
    assert_eq!(&ext.memory[64..96], &[0x12; 32]);
    assert_eq!(&ext.memory[96..128], &[0x13; 32]);
    assert_eq!(ext.memory[128], 0x10);
    assert_eq!(ext.memory[143], 0x01);
    assert_eq!(ext.memory[144], 7);
    assert_eq!(ext.memory[160], 0);
}

#[test]
fn read_copies_part_of_payload() {
    let mut ext = MockExt::new(16);
    ext.msg = vec![10, 11, 12, 13, 14];
    host_funcs::read(&mut ext, 1, 3, 4).unwrap();
    assert_eq!(&ext.memory[3..8], &[0, 11, 12, 13, 0]);
}

#[test]
fn replies() {
    let mut ext = MockExt::new(128);
    ext.memory[0..3].copy_from_slice(&[1, 2, 3]);
    ext.memory[8..24].copy_from_slice(&500u128.to_le_bytes());
    host_funcs::reply(&mut ext, 0, 3, 8, 32).unwrap();
    assert_eq!(ext.replies, vec![(0, vec![1, 2, 3], 500)]);
    assert_eq!(&ext.memory[32..64], &[0x0C; 32]);
    host_funcs::reply_commit(&mut ext, 64, 8).unwrap();
    assert_eq!(ext.replies[1], (0, vec![], 500));
    assert_eq!(&ext.memory[64..96], &[0x0D; 32]);
    host_funcs::reply_push(&mut ext, 1, 2).unwrap();
    assert_eq!(ext.pushed, vec![(None, vec![2, 3])]);
    ext.fail = true;
    assert_eq!(host_funcs::reply(&mut ext, 0, 3, 8, 96), Err(host_funcs::REPLY_ERROR));
    assert_eq!(&ext.memory[96..128], &[0u8; 32]);
    assert_eq!(host_funcs::reply_commit(&mut ext, 96, 8), Err(host_funcs::SEND_ERROR));
    assert_eq!(host_funcs::reply_push(&mut ext, 0, 1), Err(host_funcs::REPLY_PUSH_ERROR));
}

#[test]
fn sends() {
    let mut ext = MockExt::new(160);
    ext.memory[0..32].copy_from_slice(&[0x21; 32]);
    ext.memory[32..34].copy_from_slice(&[7, 8]);
    ext.memory[40..56].copy_from_slice(&99u128.to_le_bytes());
    host_funcs::send(&mut ext, 0, 32, 2, 40, 64).unwrap();
    assert_eq!(ext.sent[0], (None, [0x21; 32], vec![7, 8], None, 99));
    assert_eq!(&ext.memory[64..96], &[0x0E; 32]);
    host_funcs::send_wgas(&mut ext, 0, 32, 1, -1, 40, 96).unwrap();
    assert_eq!(ext.sent[1], (None, [0x21; 32], vec![7], Some(u64::MAX), 99));
    host_funcs::send_commit(&mut ext, 3, 128, 0, 40).unwrap();
    assert_eq!(ext.sent[2], (Some(3), [0x21; 32], vec![], None, 99));
    assert_eq!(&ext.memory[128..160], &[0x0F; 32]);
    host_funcs::send_commit_wgas(&mut ext, 4, 128, 0, 1000, 40).unwrap();
    assert_eq!(ext.sent[3], (Some(4), [0x21; 32], vec![], Some(1000), 99));
    assert_eq!(host_funcs::send_init(&mut ext), Ok(5));
    host_funcs::send_push(&mut ext, 6, 32, 2).unwrap();
    assert_eq!(ext.pushed, vec![(Some(6), vec![7, 8])]);
    ext.fail = true;
    assert_eq!(host_funcs::send(&mut ext, 0, 32, 2, 40, 64), Err(host_funcs::SEND_ERROR));
    assert_eq!(host_funcs::send_wgas(&mut ext, 0, 32, 2, 1, 40, 64), Err(host_funcs::SEND_ERROR));
    assert_eq!(host_funcs::send_commit(&mut ext, 1, 64, 0, 40), Err(host_funcs::SEND_COMMIT_ERROR));
    assert_eq!(
        host_funcs::send_commit_wgas(&mut ext, 1, 64, 0, 1, 40),
        Err(host_funcs::SEND_COMMIT_ERROR)
    );
    assert_eq!(host_funcs::send_init(&mut ext), Err(host_funcs::SEND_INIT_ERROR));
    assert_eq!(host_funcs::send_push(&mut ext, 1, 32, 2), Err(host_funcs::SEND_PUSH_ERROR));
}

#[test]
fn program_creation_reads_fixed_layout() {
    let mut ext = MockExt::new(256);
    ext.memory[0..32].copy_from_slice(&[0x31; 32]);
    ext.memory[32..40].copy_from_slice(&77u64.to_le_bytes());
    ext.memory[40..56].copy_from_slice(&88u128.to_le_bytes());
    ext.memory[60..62].copy_from_slice(&[1, 2]);
    ext.memory[70..73].copy_from_slice(&[3, 4, 5]);
    host_funcs::create_program_wgas(&mut ext, 0, 60, 2, 70, 3, 100).unwrap();
    assert_eq!(ext.created, vec![([0x31; 32], vec![1, 2], vec![3, 4, 5], 77, 88)]);
    assert_eq!(&ext.memory[100..132], &[0x11; 32]);
    ext.fail = true;
    assert_eq!(
        host_funcs::create_program_wgas(&mut ext, 0, 60, 2, 70, 3, 200),
        Err(host_funcs::CREATE_PROGRAM_ERROR)
    );
    assert_eq!(&ext.memory[200..232], &[0u8; 32]);
}

#[test]
fn runtime_memory_access() {
    let memory = wasmi::MemoryInstance::alloc(Pages(1), None).unwrap();
    let mut wrap = MemoryWrap(memory.clone());
    let mut ext = MockExt::new(8);
    let mut rt: Runtime<'_, MockExt, Option<&'static str>> = Runtime::new(&mut ext, &memory, &mut wrap, None);
    assert_eq!(rt.write_sandbox_output(10, &[1, 2, 3]), Ok(()));
    assert_eq!(rt.read_sandbox_memory(9, 5), Ok(vec![0, 1, 2, 3, 0]));
    let mut buf = [9u8; 2];
    assert_eq!(rt.read_sandbox_memory_into_buf(11, &mut buf), Ok(()));
    assert_eq!(buf, [2, 3]);
    assert_eq!(rt.read_sandbox_memory(65535, 2), Err(MemoryError::OutOfBounds));
    assert_eq!(rt.read_sandbox_memory(0, 0), Ok(vec![]));
    assert_eq!(rt.read_sandbox_memory_into_buf(0, &mut []), Ok(()));
    assert_eq!(rt.write_sandbox_output(0, &[]), Ok(()));
    let mut buf2 = [9u8; 4];
    assert_eq!(rt.read_sandbox_memory_into_buf(65534, &mut buf2), Err(MemoryError::OutOfBounds));
    assert_eq!(buf2, [9; 4]);
    assert_eq!(rt.write_sandbox_output(65535, &[1, 2]), Err(MemoryError::OutOfBounds));
    rt.set_err(Some("trap"));
    assert_eq!(rt.err, Some("trap"));
    assert_eq!(rt.alloc_pages(2), Ok(WasmPageNumber(10)));
    assert_eq!(rt.ext().events, vec!["alloc 2".to_string()]);
    let _w: &mut MemoryWrap = rt.memory_wrap();
}

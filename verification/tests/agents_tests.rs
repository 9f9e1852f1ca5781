use compute_playground::agents::{prepare_agents, setup, Agent, Agents, AgentsBuffer, BufferHandle};

#[test]
fn new_agents_are_empty_and_unchanged() {
    let data = Agents::new();
    assert!(data.agents.is_empty());
    assert!(!data.changed);
}

#[test]
fn setup_lays_agents_out_column_by_column() {
    let mut data = Agents::new();
    setup(&mut data, 2, 3);
    assert_eq!(
        data.agents,
        vec![
            Agent { x: 0, y: 0 },
            Agent { x: 0, y: 1 },
            Agent { x: 0, y: 2 },
            Agent { x: 1, y: 0 },
            Agent { x: 1, y: 1 },
            Agent { x: 1, y: 2 },
        ]
    );
    assert!(data.changed);
}

#[test]
fn setup_covers_every_point_once() {
    let (x_size, y_size) = (17u32, 9u32);
    let mut data = Agents::new();
    setup(&mut data, x_size, y_size);
    assert_eq!(data.agents.len(), 17 * 9);
    let mut seen = vec![false; 17 * 9];
    for agent in &data.agents {
        assert!(agent.x < x_size && agent.y < y_size);
        let index = (agent.x * y_size + agent.y) as usize;
        assert!(!seen[index]);
        seen[index] = true;
    }
    assert!(seen.iter().all(|point| *point));
    for x in 0..x_size {
        for y in 0..y_size {
            assert_eq!(data.agents[(x * y_size + y) as usize], Agent { x, y });
        }
    }
}

#[test]
fn setup_of_an_empty_lattice() {
    let mut data = Agents::new();
    setup(&mut data, 0, 5);
    assert!(data.agents.is_empty());
    assert!(data.changed);
    setup(&mut data, 5, 0);
    assert!(data.agents.is_empty());
}

#[test]
fn setup_replaces_earlier_agents() {
    let mut data = Agents::new();
    setup(&mut data, 4, 4);
    setup(&mut data, 1, 2);
    assert_eq!(data.agents, vec![Agent { x: 0, y: 0 }, Agent { x: 0, y: 1 }]);
}

#[test]
fn setup_of_the_full_lattice() {
    let mut data = Agents::new();
    setup(&mut data, 1000, 1000);
    assert_eq!(data.agents.len(), 1_000_000);
    assert_eq!(data.agents[0], Agent { x: 0, y: 0 });
    assert_eq!(data.agents[999], Agent { x: 0, y: 999 });
    assert_eq!(data.agents[1000], Agent { x: 1, y: 0 });
    assert_eq!(data.agents[999_999], Agent { x: 999, y: 999 });
}

#[test]
fn changed_agents_are_written_once() {
    let mut data = Agents::new();
    setup(&mut data, 3, 3);
    let mut buffer = AgentsBuffer(None);
    assert!(prepare_agents(&mut data, &mut buffer));
    assert_eq!(buffer, AgentsBuffer(Some(BufferHandle { generation: 0, len: 9 })));
    assert!(!data.changed);
    assert_eq!(data.agents.len(), 9);

    assert!(!prepare_agents(&mut data, &mut buffer));
    assert_eq!(buffer, AgentsBuffer(Some(BufferHandle { generation: 0, len: 9 })));
}

#[test]
fn unchanged_agents_are_not_written() {
    let mut data = Agents::new();
    let mut buffer = AgentsBuffer(None);
    assert!(!prepare_agents(&mut data, &mut buffer));
    assert_eq!(buffer, AgentsBuffer(None));
}

#[test]
fn every_write_replaces_the_buffer() {
    let mut data = Agents::new();
    let mut buffer = AgentsBuffer(None);
    setup(&mut data, 2, 2);
    assert!(prepare_agents(&mut data, &mut buffer));
    setup(&mut data, 5, 1);
    assert!(prepare_agents(&mut data, &mut buffer));
    assert_eq!(buffer, AgentsBuffer(Some(BufferHandle { generation: 1, len: 5 })));
}

#[test]
fn buffer_generation_wraps() {
    let mut data = Agents { agents: vec![Agent { x: 0, y: 0 }], changed: true };
    let mut buffer = AgentsBuffer(Some(BufferHandle { generation: u64::MAX, len: 3 }));
    assert!(prepare_agents(&mut data, &mut buffer));
    assert_eq!(buffer, AgentsBuffer(Some(BufferHandle { generation: 0, len: 1 })));
}
